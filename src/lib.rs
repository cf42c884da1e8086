//! Reports for diagnostic errors: a brief line, a single-line cause chain,
//! a multi-line cause chain, and a structured payload for an HTTP API.
//!
//! - `diagnostic`: the error value and the walk over its cause chain;
//! - `text`: the report formats and the string pieces that build them;
//! - `report`: the reports of an error and its API payload;
//! - `laws`: properties of the reports, proved for every error.
pub mod diagnostic;
pub mod text;
pub mod report;
pub mod laws;

pub use diagnostic::DiagnosticError;
pub use report::{HaoyongError, HaoyongPoemResponse, IntoPoemResult, PoemResponse};
