//! The output and error reporting layer of a command-line client: every
//! command produces one typed result value or one classified error
//! value, and this crate renders that outcome two ways. The human
//! rendering separates a heading and narration (secondary stream, only
//! at an interactive terminal) from the literal body (primary stream);
//! the machine rendering is a versioned JSON envelope whose `data`
//! object always carries a `success` flag and whose `error` value is
//! null exactly when there is nothing to report. The laws module states
//! and proves how the two renderings agree.

pub mod commands;
pub mod dispatch;
pub mod error;
pub mod human;
pub mod json;
pub mod laws;
pub mod machine;
pub mod model;
pub mod output;
pub mod table;
pub mod templates;
pub mod text;
