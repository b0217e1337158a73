//! File-type codes and permission flags of the traditional Unix `st_mode`
//! word, together with the two bit tests the predicate engine applies to a
//! candidate's raw mode.

use vstd::prelude::*;

verus! {

/// Mask selecting the file-type code of a mode word.
pub const S_IFMT: u32 = 0o170000;

/// File-type code: named pipe (FIFO).
pub const S_IFIFO: u32 = 0o010000;

/// File-type code: character device.
pub const S_IFCHR: u32 = 0o020000;

/// File-type code: directory.
pub const S_IFDIR: u32 = 0o040000;

/// File-type code: block device.
pub const S_IFBLK: u32 = 0o060000;

/// File-type code: regular file.
pub const S_IFREG: u32 = 0o100000;

/// Permission flag: set-user-ID on execution.
pub const S_ISUID: u32 = 0o4000;

/// Permission flag: set-group-ID on execution.
pub const S_ISGID: u32 = 0o2000;

/// True when the mode word's file-type code equals `s_ifval`.
pub open spec fn spec_isval(s_ifval: u32, mode: u32) -> bool {
    (mode & S_IFMT) == s_ifval
}

/// True when the mode word has the permission flag `s_isflg` set.
pub open spec fn spec_isset(s_isflg: u32, mode: u32) -> bool {
    (mode & s_isflg) != 0
}

/// Tests the file-type code of a mode word, as the `S_IS*` type macros do.
pub fn s_isval(s_ifval: u32, mode: u32) -> (b: bool)
    ensures
        b == spec_isval(s_ifval, mode),
{
    (mode & S_IFMT) == s_ifval
}

/// Tests a permission flag of a mode word.
pub fn s_isset(s_isflg: u32, mode: u32) -> (b: bool)
    ensures
        b == spec_isset(s_isflg, mode),
{
    (mode & s_isflg) != 0
}

} // verus!
