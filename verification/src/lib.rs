pub mod error;
pub mod json;
pub mod laws;
pub mod model;
pub mod protocol;
pub mod service;
pub mod text;
pub mod transport;
