//! A short-lived cache in front of a music-activity service, one entry per user.

pub mod model;
pub mod routes;
