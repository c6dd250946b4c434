//! What holds of the library, stated over inputs and results.
//!
//! Each public proof function states one law. The statements say directly what comes out, or relate
//! several results; they do not go through the definitions that the functions are proved against.

pub mod checks;
pub mod runs;
pub mod service;
pub mod texts;
pub mod views;
