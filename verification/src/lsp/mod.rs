pub mod base;
pub mod capabilities;
pub mod messages;
