//! A small todo service: the data model, the decisions of each request
//! handler, and a mathematical model of the document collection the handlers
//! talk to, with the laws that tie them together.

pub mod handler;
pub mod ids;
pub mod model;
pub mod response;
pub mod store;
