pub mod radar;
pub mod rover;
