pub mod project;
pub mod store;
pub mod handlers;
pub mod service;
pub mod registration;
