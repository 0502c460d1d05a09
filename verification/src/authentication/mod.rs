pub mod adapters;
pub mod entities;
pub mod ports;
pub mod use_cases;
