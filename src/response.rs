use vstd::prelude::*;

use crate::catalog::{
    lookup, name_missing_message, not_found_message, process_event, Pizza, PizzaList,
};

verus! {

/// What the endpoint answers: a status code, a content type and a JSON body.
pub struct ResponseDescriptor {
    pub status_code: u16,
    pub content_type: String,
    pub body: String,
}

impl View for ResponseDescriptor {
    type V = (u16, Seq<char>, Seq<char>);

    open spec fn view(&self) -> (u16, Seq<char>, Seq<char>) {
        (self.status_code, self.content_type@, self.body@)
    }
}

/// The content type of every response.
pub open spec fn json_content_type() -> Seq<char> {
    "application/json"@
}

/// The JSON string literal that serde_json writes for `s`: quoted, with
/// JSON's escapes.
pub uninterp spec fn json_string_literal(s: Seq<char>) -> Seq<char>;

/// Relies on serde_json::to_string on a `str`: it writes the string as one
/// JSON string literal. Serialising a `str` into serde_json's in-memory
/// buffer has no failing path, so the error arm is never taken.
#[verifier::external_body]
fn quote_json(s: &str) -> (r: String)
    ensures
        r@ == json_string_literal(s@),
{
    match serde_json::to_string(s) {
        Ok(q) => q,
        Err(_) => String::new(),
    }
}

/// The decimal digit `d` as a character.
pub open spec fn digit_char(d: nat) -> char {
    if d == 0 { '0' }
    else if d == 1 { '1' }
    else if d == 2 { '2' }
    else if d == 3 { '3' }
    else if d == 4 { '4' }
    else if d == 5 { '5' }
    else if d == 6 { '6' }
    else if d == 7 { '7' }
    else if d == 8 { '8' }
    else { '9' }
}

/// `n` written in decimal, without sign, leading zeros or fractional part.
pub open spec fn decimal(n: nat) -> Seq<char>
    decreases n,
{
    if n < 10 {
        seq![digit_char(n)]
    } else {
        decimal(n / 10).push(digit_char(n % 10))
    }
}

/// The body of a success response: `{"name":<name>,"price":<price>}`.
pub open spec fn success_body(name: Seq<char>, price: u32) -> Seq<char> {
    "{\"name\":"@ + json_string_literal(name) + ",\"price\":"@ + decimal(price as nat) + "}"@
}

/// The body of a failure response: `{"error":<message>}`.
pub open spec fn failure_body(message: Seq<char>) -> Seq<char> {
    "{\"error\":"@ + json_string_literal(message) + "}"@
}

/// The success response for a record.
pub open spec fn success_view(p: Pizza) -> (u16, Seq<char>, Seq<char>) {
    (200, json_content_type(), success_body(p.name@, p.price))
}

/// The failure response for a message.
pub open spec fn failure_view(message: Seq<char>) -> (u16, Seq<char>, Seq<char>) {
    (400, json_content_type(), failure_body(message))
}

/// The response owed to a request naming `name` (or none) against the
/// records `s`.
pub open spec fn expected_response(name: Option<Seq<char>>, s: Seq<Pizza>) -> (
    u16,
    Seq<char>,
    Seq<char>,
) {
    match name {
        None => failure_view(name_missing_message()),
        Some(n) => match lookup(s, n) {
            Some(p) => success_view(p),
            None => failure_view(not_found_message()),
        },
    }
}

/// The view of an optional borrowed name.
pub open spec fn name_view(name: Option<&str>) -> Option<Seq<char>> {
    match name {
        Some(n) => Some(n@),
        None => None,
    }
}

fn digit_str(d: u32) -> (r: &'static str)
    requires
        d < 10,
    ensures
        r@ == seq![digit_char(d as nat)],
{
    proof {
        reveal_strlit("0");
        reveal_strlit("1");
        reveal_strlit("2");
        reveal_strlit("3");
        reveal_strlit("4");
        reveal_strlit("5");
        reveal_strlit("6");
        reveal_strlit("7");
        reveal_strlit("8");
        reveal_strlit("9");
    }
    let r = if d == 0 { "0" }
    else if d == 1 { "1" }
    else if d == 2 { "2" }
    else if d == 3 { "3" }
    else if d == 4 { "4" }
    else if d == 5 { "5" }
    else if d == 6 { "6" }
    else if d == 7 { "7" }
    else if d == 8 { "8" }
    else { "9" };
    assert(r@ =~= seq![digit_char(d as nat)]);
    r
}

/// Appends `n` in decimal to `out`.
fn write_decimal(out: &mut String, n: u32)
    ensures
        final(out)@ == old(out)@ + decimal(n as nat),
    decreases n,
{
    if n >= 10 {
        write_decimal(out, n / 10);
    }
    out.append(digit_str(n % 10));
    proof {
        if n >= 10 {
            assert(old(out)@ + decimal(n as nat) =~= old(out)@ + decimal((n / 10) as nat) + seq![
                digit_char((n % 10) as nat),
            ]);
        } else {
            assert(decimal(n as nat) =~= seq![digit_char((n % 10) as nat)]);
        }
    }
}

/// The response for a record that was found: status 200, JSON content type,
/// and the record as `{"name":...,"price":...}`.
pub fn build_success_response(pizza: &Pizza) -> (r: ResponseDescriptor)
    ensures
        r@ == success_view(*pizza),
{
    let mut body = String::from_str("{\"name\":");
    let name = quote_json(pizza.name.as_str());
    body.append(name.as_str());
    body.append(",\"price\":");
    write_decimal(&mut body, pizza.price);
    body.append("}");
    let r = ResponseDescriptor {
        status_code: 200,
        content_type: String::from_str("application/json"),
        body,
    };
    assert(r.body@ =~= success_body(pizza.name@, pizza.price));
    r
}

/// The response for a failed lookup: status 400, JSON content type, and the
/// message as `{"error":...}`.
pub fn build_failure_response(error_message: &str) -> (r: ResponseDescriptor)
    ensures
        r@ == failure_view(error_message@),
{
    let mut body = String::from_str("{\"error\":");
    let message = quote_json(error_message);
    body.append(message.as_str());
    body.append("}");
    let r = ResponseDescriptor {
        status_code: 400,
        content_type: String::from_str("application/json"),
        body,
    };
    assert(r.body@ =~= failure_body(error_message@));
    r
}

/// Answers one request: looks the name up in the catalog and shapes the
/// outcome into a success or a failure response.
pub fn handle_request(pizza_name: Option<&str>, pizza_list: &PizzaList) -> (r: ResponseDescriptor)
    ensures
        r@ == expected_response(name_view(pizza_name), pizza_list.records()),
{
    match process_event(pizza_name, pizza_list) {
        Ok(pizza) => build_success_response(pizza),
        Err(error_message) => build_failure_response(error_message),
    }
}

/// Handling the same request twice against the same catalog gives the same
/// response, byte for byte: the answer depends on the request and the
/// catalog alone.
pub proof fn lemma_handle_request_repeatable(
    name: Option<Seq<char>>,
    catalog: Seq<Pizza>,
    first: ResponseDescriptor,
    second: ResponseDescriptor,
)
    requires
        first@ == expected_response(name, catalog),
        second@ == expected_response(name, catalog),
    ensures
        first@ == second@,
        first.body@ == second.body@,
{
}

} // verus!
