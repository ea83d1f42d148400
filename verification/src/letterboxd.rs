//! A cached film diary, scraped from the diary's web page.

pub mod html;
pub mod model;
pub mod routes;
