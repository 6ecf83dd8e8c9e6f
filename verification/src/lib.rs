//! Rule evaluation and bookkeeping for download automation.
pub mod account;
pub mod actions;
pub mod bytes;
pub mod clock;
pub mod conditions;
pub mod engine;
pub mod model;
pub mod quantity;
pub mod run;
pub mod text;
