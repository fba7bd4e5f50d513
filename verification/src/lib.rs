//! A message-intake service's rules: what a request must hold, what the
//! service answers for each outcome of the store, the statements it sends
//! to the store, and the order of its start-up steps.
pub mod model;
pub mod request;
pub mod endpoint;
pub mod schema;
pub mod startup;
