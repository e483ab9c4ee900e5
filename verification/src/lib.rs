//! Remote-operations core of a desktop front end for a tuberculosis profiling
//! pipeline that runs on a cluster: the sample model derived from a remote
//! directory listing, the shell commands sent over the session, the reading of
//! their results, and the step-by-step protocol of each remote operation.
//!
//! The library touches neither the network nor the disk. Each operation is a
//! small state machine that names the next request for a driver to perform
//! and decides, from the reply, what follows.

pub mod actions;
pub mod command;
pub mod config;
pub mod content;
pub mod gating;
pub mod model;
pub mod nav;
pub mod protocol;
pub mod session;
pub mod ssh;
pub mod text;
pub mod transfer;
pub mod types;
pub mod utils;

use vstd::prelude::*;

verus! {

/// The directory under the user's home where results and the error log are
/// kept.
pub const RESULT_DIR_LOCAL: &'static str = "tb-profiler-results";

/// The name offered for the downloaded default template.
pub const DEFAULT_TEMPLATE_FILENAME_LOCAL: &'static str = "default_template.docx";

} // verus!
