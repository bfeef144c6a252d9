pub mod greeting;
pub mod registry;

pub use greeting::greet;
