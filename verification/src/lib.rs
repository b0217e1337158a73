//! A file-predicate filter: evaluates a conjunction of independently
//! togglable property tests (file type, permission bits, timestamp order
//! relative to a reference file, emptiness, hidden-name convention) over a
//! list of candidate entries, and reports which entries satisfy every
//! enabled test.
//!
//! The engine here is pure: it works on plain metadata values (mode bits,
//! size, modification time, access-check answers) that the caller resolves
//! from the filesystem beforehand, and returns the overall outcome together
//! with the display names to print.

mod config;
pub mod engine;
pub mod laws;
mod mode_bits;
mod names;

pub use crate::config::{Candidate, FileFacts, Opt, ResolvedInput, RunError, RunOutput};
pub use crate::engine::{reduce, reference_path, run, run_opts, test_dir};
pub use crate::names::{display_name, is_hidden};
pub use crate::mode_bits::{s_isset, s_isval, S_IFBLK, S_IFCHR, S_IFDIR, S_IFIFO, S_IFMT,
    S_IFREG, S_ISGID, S_ISUID};
