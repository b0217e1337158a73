//! Display names. A candidate's display name is its final path component;
//! where that cannot be derived (an empty path, or one ending in the
//! separator) the name is the path's own string form. The hidden-name
//! convention is read off the display name's first character.

use vstd::prelude::*;

verus! {

/// The index where the final path component starts: just after the last
/// `/`, or `0` when the path holds none.
pub open spec fn spec_start_of_name(s: Seq<char>) -> int
    decreases s.len(),
{
    if s.len() == 0 {
        0
    } else if s[s.len() - 1] == '/' {
        s.len() as int
    } else {
        spec_start_of_name(s.drop_last())
    }
}

/// The display name of a path: its final component, or the path itself
/// when the path is empty or ends in the separator.
pub open spec fn spec_display_name(s: Seq<char>) -> Seq<char> {
    if s.len() == 0 || s[s.len() - 1] == '/' {
        s
    } else {
        s.subrange(spec_start_of_name(s), s.len() as int)
    }
}

/// True when a display name falls under the hidden-name convention: it is
/// exactly `.` or starts with `.`.
pub open spec fn spec_is_hidden(name: Seq<char>) -> bool {
    name.len() > 0 && name[0] == '.'
}

/// Derives the display name of a path.
pub fn display_name(path: &str) -> (r: String)
    ensures
        r@ == spec_display_name(path@),
{
    let n: usize = path.unicode_len();
    if n == 0 {
        return path.to_owned();
    }
    if path.get_char(n - 1) == '/' {
        return path.to_owned();
    }
    let mut i: usize = 0;
    let mut start: usize = 0;
    while i < n
        invariant
            n == path@.len(),
            i <= n,
            start <= i,
            start == spec_start_of_name(path@.take(i as int)),
        decreases n - i,
    {
        let c = path.get_char(i);
        proof {
            let pre = path@.take(i as int + 1);
            assert(pre.drop_last() =~= path@.take(i as int));
            assert(pre[pre.len() - 1] == path@[i as int]);
        }
        if c == '/' {
            start = i + 1;
        }
        i += 1;
    }
    proof {
        assert(path@.take(n as int) =~= path@);
    }
    let tail = path.substring_char(start, n);
    tail.to_owned()
}

/// Tests the hidden-name convention on a display name.
pub fn is_hidden(name: &str) -> (b: bool)
    ensures
        b == spec_is_hidden(name@),
{
    let n: usize = name.unicode_len();
    n > 0 && name.get_char(0) == '.'
}

} // verus!
