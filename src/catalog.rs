use vstd::prelude::*;

verus! {

/// One record of the catalog: a name and its price.
pub struct Pizza {
    pub name: String,
    pub price: u32,
}

/// The catalog: records in a fixed order.
pub struct PizzaList {
    pub pizzas: Vec<Pizza>,
}

/// The message returned when the request names no pizza.
pub open spec fn name_missing_message() -> Seq<char> {
    "Pizza name not provided"@
}

/// The message returned when no record carries the requested name.
pub open spec fn not_found_message() -> Seq<char> {
    "Pizza not found"@
}

/// No two records of `s` share a name.
pub open spec fn names_unique(s: Seq<Pizza>) -> bool {
    forall|i: int, j: int| 0 <= i < j < s.len() ==> s[i].name@ != s[j].name@
}

/// `i` is the position of the first record of `s` whose name is `name`.
pub open spec fn is_first_match(s: Seq<Pizza>, name: Seq<char>, i: int) -> bool {
    &&& 0 <= i < s.len()
    &&& s[i].name@ == name
    &&& forall|j: int| 0 <= j < i ==> s[j].name@ != name
}

/// The first record of `s` named `name`, if any.
pub open spec fn lookup(s: Seq<Pizza>, name: Seq<char>) -> Option<Pizza> {
    if exists|i: int| is_first_match(s, name, i) {
        Some(s[choose|i: int| is_first_match(s, name, i)])
    } else {
        None
    }
}

impl PizzaList {
    /// The records, in catalog order.
    pub open spec fn records(&self) -> Seq<Pizza> {
        self.pizzas@
    }

    /// The catalog's invariant: names are unique.
    pub open spec fn wf(&self) -> bool {
        names_unique(self.records())
    }

    /// The seeded catalog: veggie at 10, regina at 12, deluxe at 14, in that order.
    pub fn new() -> (r: PizzaList)
        ensures
            r.wf(),
            r.records().len() == 3,
            r.records()[0].name@ == "veggie"@,
            r.records()[0].price == 10,
            r.records()[1].name@ == "regina"@,
            r.records()[1].price == 12,
            r.records()[2].name@ == "deluxe"@,
            r.records()[2].price == 14,
    {
        let r = PizzaList {
            pizzas: vec![
                Pizza { name: String::from_str("veggie"), price: 10 },
                Pizza { name: String::from_str("regina"), price: 12 },
                Pizza { name: String::from_str("deluxe"), price: 14 },
            ],
        };
        proof {
            reveal_strlit("veggie");
            reveal_strlit("regina");
            reveal_strlit("deluxe");
            assert(r.records()[0].name@[0] != r.records()[1].name@[0]);
            assert(r.records()[0].name@[0] != r.records()[2].name@[0]);
            assert(r.records()[1].name@[0] != r.records()[2].name@[0]);
        }
        r
    }
}

/// Scans the catalog in order for the first record whose name equals
/// `pizza_name` exactly (case-sensitive).
pub fn get_pizza_from_name<'a>(pizza_name: &'a str, pizza_list: &'a PizzaList) -> (r: Option<
    &'a Pizza,
>)
    ensures
        match r {
            Some(p) => lookup(pizza_list.records(), pizza_name@) == Some(*p),
            None => lookup(pizza_list.records(), pizza_name@) is None,
        },
{
    let wanted = String::from_str(pizza_name);
    let ghost s = pizza_list.records();
    let mut i: usize = 0;
    while i < pizza_list.pizzas.len()
        invariant
            s == pizza_list.records(),
            wanted@ == pizza_name@,
            i <= s.len(),
            forall|j: int| 0 <= j < i ==> s[j].name@ != pizza_name@,
        decreases s.len() - i,
    {
        let pizza = &pizza_list.pizzas[i];
        if pizza.name == wanted {
            proof {
                assert(is_first_match(s, pizza_name@, i as int));
                assert forall|k: int| is_first_match(s, pizza_name@, k) implies k == i by {
                    if k < i {
                        assert(s[k].name@ != pizza_name@);
                    } else if k > i {
                        assert(s[i as int].name@ != pizza_name@);
                    }
                }
            }
            return Some(pizza);
        }
        i = i + 1;
    }
    proof {
        assert forall|k: int| !is_first_match(s, pizza_name@, k) by {
            if 0 <= k < s.len() {
                assert(s[k].name@ != pizza_name@);
            }
        }
    }
    None
}

/// Decides a request: no name gives the name-missing message, a name that
/// no record carries gives the not-found message, otherwise the record.
pub fn process_event<'a>(pizza_name: Option<&'a str>, pizza_list: &'a PizzaList) -> (r: Result<
    &'a Pizza,
    &'a str,
>)
    ensures
        match pizza_name {
            None => r matches Err(m) && m@ == name_missing_message(),
            Some(n) => match lookup(pizza_list.records(), n@) {
                Some(p) => r matches Ok(q) && *q == p,
                None => r matches Err(m) && m@ == not_found_message(),
            },
        },
{
    match pizza_name {
        Some(name) => {
            match get_pizza_from_name(name, pizza_list) {
                Some(pizza) => Ok(pizza),
                None => Err("Pizza not found"),
            }
        },
        None => Err("Pizza name not provided"),
    }
}

} // verus!
