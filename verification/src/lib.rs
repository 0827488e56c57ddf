//! A data model of Postman collections (format v2.x) together with the
//! verified logic that turns the loosely typed parts of a collection into
//! typed values.

pub mod auth;
pub mod json;
pub mod model;
pub mod text;
