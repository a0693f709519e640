//! A two-field record, its one fixed instance, and the ordered pattern match
//! that turns a record into a line of text.

pub mod dispatch;
pub mod record;

pub use dispatch::Arm;
pub use record::{Example, ExampleView};
