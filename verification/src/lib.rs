//! A catalogue of named projects, kept in one settings document: the
//! store of the document and its text form, the resolution of the project
//! that a request refers to, and the decisions of the commands that open,
//! add and remove projects and set their editors.
//!
//! Every function of the library is verified against its contract, apart
//! from the few that call `serde_json` or compare string slices: those are
//! marked as trusted where they stand, in `json` and `text`.

pub mod bootstrap;
pub mod codec;
pub mod command;
pub mod errors;
pub mod json;
pub mod model;
pub mod record;
pub mod resolver;
pub mod session;
pub mod store;
pub mod text;
pub mod use_cases;
