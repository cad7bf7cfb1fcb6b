use pizza_lookup::{get_pizza_from_name, process_event, Pizza, PizzaList};

#[test]
fn new_pizza_list_test() {
    let all_pizza: PizzaList = PizzaList::new();
    assert_eq!(3, all_pizza.pizzas.len());
    let veggie = get_pizza_from_name("veggie", &all_pizza);
    assert_eq!(10, veggie.unwrap().price);
    let regina = get_pizza_from_name("regina", &all_pizza);
    assert_eq!(12, regina.unwrap().price);
    let deluxe = get_pizza_from_name("deluxe", &all_pizza);
    assert_eq!(14, deluxe.unwrap().price);
}

#[test]
fn process_event_valid_pizza_test() {
    let pizza_list = PizzaList::new();
    let res = process_event(Some("regina"), &pizza_list);
    assert!(res.is_ok());
}

#[test]
fn process_event_invalid_pizza_test() {
    let pizza_list = PizzaList::new();
    let res = process_event(Some("unknown pizza"), &pizza_list);
    assert!(matches!(res, Err("Pizza not found")));
}

#[test]
fn process_event_no_pizza_test() {
    let pizza_list = PizzaList::new();
    let res = process_event(None, &pizza_list);
    assert!(matches!(res, Err("Pizza name not provided")));
}

#[test]
fn catalog_order_and_names() {
    let list = PizzaList::new();
    let names: Vec<&str> = list.pizzas.iter().map(|p| p.name.as_str()).collect();
    assert_eq!(vec!["veggie", "regina", "deluxe"], names);
}

#[test]
fn found_record_is_the_catalog_record() {
    let list = PizzaList::new();
    let res = process_event(Some("deluxe"), &list).unwrap();
    assert_eq!("deluxe", res.name);
    assert_eq!(14, res.price);
}

#[test]
fn unknown_name_is_not_found() {
    let list = PizzaList::new();
    assert!(get_pizza_from_name("unknown", &list).is_none());
    assert!(matches!(process_event(Some("unknown"), &list), Err("Pizza not found")));
}

#[test]
fn name_missing_for_empty_catalog() {
    let list = PizzaList { pizzas: Vec::new() };
    assert!(matches!(process_event(None, &list), Err("Pizza name not provided")));
    assert!(matches!(process_event(Some("regina"), &list), Err("Pizza not found")));
}

#[test]
fn lookup_is_case_sensitive() {
    let list = PizzaList::new();
    assert!(get_pizza_from_name("Regina", &list).is_none());
    assert!(get_pizza_from_name("regina ", &list).is_none());
}

#[test]
fn empty_name_is_an_ordinary_lookup() {
    let list = PizzaList::new();
    assert!(matches!(process_event(Some(""), &list), Err("Pizza not found")));
}

#[test]
fn first_of_equal_names_wins() {
    let list = PizzaList {
        pizzas: vec![
            Pizza { name: String::from("margherita"), price: 7 },
            Pizza { name: String::from("margherita"), price: 9 },
        ],
    };
    assert_eq!(7, get_pizza_from_name("margherita", &list).unwrap().price);
}
