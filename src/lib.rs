pub mod laws;
pub mod model;
pub mod prompt;
pub mod service;
pub mod text;
