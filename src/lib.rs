//! A single-endpoint pizza lookup: a fixed catalog, a lookup by exact name,
//! and the JSON responses built from the lookup's outcome.

pub mod catalog;
pub mod response;

pub use catalog::{get_pizza_from_name, process_event, Pizza, PizzaList};
pub use response::{
    build_failure_response, build_success_response, handle_request, ResponseDescriptor,
};
