//! A fault-isolating conversion of API records from one analysis phase to
//! the next: failures are logged and replaced by placeholder records.

pub mod names;
pub mod convert_error;
pub mod api;
pub mod error_reporter;
pub mod guarantees;
