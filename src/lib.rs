pub mod capture;
pub mod decimal;
pub mod demo;
pub mod pure;
