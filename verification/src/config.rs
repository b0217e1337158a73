//! The data the engine works on: the validated configuration record, the
//! plain metadata facts resolved for one candidate entry, and the shapes in
//! which candidates and results travel.

use vstd::prelude::*;

verus! {

/// The validated set of enabled tests, behaviour modifiers, optional
/// reference paths and input paths. Produced by the caller's option
/// handling; consumed read-only by the engine.
pub struct Opt {
    /// Allow entries whose display name starts with `.`.
    pub hidden: bool,
    /// Require file type = block device.
    pub block_special: bool,
    /// Require file type = character device.
    pub char_special: bool,
    /// Require file type = directory.
    pub directory: bool,
    /// Require file type = regular file.
    pub regular: bool,
    /// Require the set-group-ID mode flag.
    pub set_gid_set: bool,
    /// Require the entry itself (link not followed) to be a symbolic link.
    pub symbolic_link: bool,
    /// Test the direct children of each input directory instead of the
    /// inputs themselves.
    pub dir_contents: bool,
    /// Require modification time strictly after this file's.
    pub newer_than: Option<String>,
    /// Require modification time strictly before this file's.
    pub older_than: Option<String>,
    /// Require file type = named pipe.
    pub fifo: bool,
    /// Print nothing; only the outcome matters.
    pub quiet: bool,
    /// Require the access check for reading to succeed.
    pub readable: bool,
    /// Require size strictly greater than zero.
    pub not_empty: bool,
    /// Require the set-user-ID mode flag.
    pub set_uid_set: bool,
    /// Negate the whole per-entry predicate.
    pub invert: bool,
    /// Require the access check for writing to succeed.
    pub writable: bool,
    /// Require the access check for executing to succeed.
    pub executable: bool,
    /// The candidate paths (or, in directory-contents mode, the
    /// directories whose children are the candidates).
    pub files: Vec<String>,
}

/// True when a reference timestamp must be resolved before any candidate
/// is evaluated.
pub open spec fn spec_needs_reference(opt: Opt) -> bool {
    opt.newer_than.is_some() || opt.older_than.is_some()
}

impl Default for Opt {
    /// The configuration with every test disabled, no reference paths and
    /// no input paths.
    fn default() -> (r: Opt)
        ensures
            !r.hidden,
            !r.block_special,
            !r.char_special,
            !r.directory,
            !r.regular,
            !r.set_gid_set,
            !r.symbolic_link,
            !r.dir_contents,
            r.newer_than.is_none(),
            r.older_than.is_none(),
            !r.fifo,
            !r.quiet,
            !r.readable,
            !r.not_empty,
            !r.set_uid_set,
            !r.invert,
            !r.writable,
            !r.executable,
            r.files@.len() == 0,
    {
        Opt {
            hidden: false,
            block_special: false,
            char_special: false,
            directory: false,
            regular: false,
            set_gid_set: false,
            symbolic_link: false,
            dir_contents: false,
            newer_than: None,
            older_than: None,
            fifo: false,
            quiet: false,
            readable: false,
            not_empty: false,
            set_uid_set: false,
            invert: false,
            writable: false,
            executable: false,
            files: Vec::new(),
        }
    }
}

/// The plain metadata facts the predicate reads for one entry, resolved by
/// the caller from the filesystem before evaluation.
///
/// `mode` is the raw `st_mode` word of the entry with links followed;
/// `is_symlink` comes from a metadata query that does not follow links;
/// `mtime` is the modification time in nanoseconds relative to the epoch;
/// the three access answers are the operating system's access-control
/// decisions for the current process's effective credentials, meaningful
/// only when the corresponding test is enabled.
#[derive(Clone, Copy)]
pub struct FileFacts {
    /// Raw mode word: file-type code and permission flags.
    pub mode: u32,
    /// Size in bytes.
    pub size: u64,
    /// Modification time, nanoseconds relative to the epoch.
    pub mtime: i128,
    /// Whether the entry itself is a symbolic link (link not followed).
    pub is_symlink: bool,
    /// Whether the access check for reading succeeds.
    pub readable: bool,
    /// Whether the access check for writing succeeds.
    pub writable: bool,
    /// Whether the access check for executing succeeds.
    pub executable: bool,
}

/// One filesystem entry under evaluation: its path and, when metadata
/// resolution succeeded, the resolved facts. `facts == None` means the
/// entry could not be resolved; it then fails the conjunction (before
/// inversion is applied).
pub struct Candidate {
    /// The entry's path; its display name is derived from it.
    pub path: String,
    /// The resolved metadata, or `None` when resolution failed.
    pub facts: Option<FileFacts>,
}

/// One configured input path, resolved by the caller. In normal mode the
/// engine evaluates `entry`; in directory-contents mode it evaluates
/// `children`, the input's direct children in listing order (empty when
/// the input could not be opened as a directory).
pub struct ResolvedInput {
    /// The input itself as a candidate (used in normal mode).
    pub entry: Candidate,
    /// The input's direct children (used in directory-contents mode).
    pub children: Vec<Candidate>,
}

/// What a run produces: the overall outcome and the display names to
/// print, one per line, in evaluation order (empty in quiet mode).
#[derive(Debug)]
pub struct RunOutput {
    /// True when at least one candidate's post-inversion verdict is true.
    pub outcome: bool,
    /// The display names of the passing candidates (empty in quiet mode).
    pub lines: Vec<String>,
}

/// The one failure the engine itself reports.
#[derive(PartialEq, Eq, Structural, Clone, Copy, Debug)]
pub enum RunError {
    /// No input paths were given; reading candidates from another source
    /// is not supported.
    UnsupportedInput,
}

} // verus!
