pub mod client;
pub mod error;
pub mod fields;
pub mod json;
pub mod model;
