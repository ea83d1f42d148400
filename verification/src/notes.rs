//! Sticky notes kept in a table of a relational database.

pub mod model;
pub mod routes;
