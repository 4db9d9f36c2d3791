pub mod configuration;
pub mod address;
pub mod error;
pub mod record;
pub mod service;
pub mod laws;
