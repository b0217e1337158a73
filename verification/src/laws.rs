//! Laws of the predicate engine, stated and proved over the same spec
//! functions the executable contracts use.

use vstd::prelude::*;

use crate::config::{Candidate, FileFacts, Opt, ResolvedInput};
use crate::engine::{spec_candidates, spec_conjunction, spec_verdict};
use crate::names::spec_display_name;

verus! {

/// A configuration equal to `opt` in all fields but `invert`, which takes
/// the argument's value.
pub open spec fn spec_with_invert(opt: Opt, invert: bool) -> Opt {
    Opt { invert, ..opt }
}

/// Inversion flips each per-entry outcome: when no reference-time test is
/// enabled, a candidate's result under `invert == true` is the logical
/// negation of its result under `invert == false`.
pub proof fn law_invert_negates(opt: Opt, compare: Option<i128>, c: Candidate)
    requires
        opt.newer_than.is_none(),
        opt.older_than.is_none(),
    ensures
        spec_verdict(spec_with_invert(opt, true), compare, c) == !spec_verdict(
            spec_with_invert(opt, false),
            compare,
            c,
        ),
{
}

/// The hidden-name rule: a candidate whose display name is exactly `.` or
/// starts with `.` fails the conjunction whenever hidden files are not
/// allowed, regardless of every other flag; its verdict is then exactly
/// the invert flag.
pub proof fn law_hidden_excluded(opt: Opt, compare: Option<i128>, c: Candidate)
    requires
        !opt.hidden,
        spec_display_name(c.path@).len() > 0,
        spec_display_name(c.path@)[0] == '.',
    ensures
        !spec_conjunction(opt, compare, spec_display_name(c.path@), c.facts),
        spec_verdict(opt, compare, c) == opt.invert,
{
}

/// Directory-contents mode descends exactly one level: the candidate
/// sequence is the concatenation of the inputs' direct children, nothing
/// more. A child that is itself a directory appears as one of these
/// candidates, subject to the same per-entry tests, and is never
/// expanded further.
pub proof fn law_dir_contents_one_level(inputs: Seq<ResolvedInput>)
    ensures
        spec_candidates(true, inputs) == inputs.map_values(
            |ri: ResolvedInput| ri.children@,
        ).flatten_alt(),
    decreases inputs.len(),
{
    let mapped = inputs.map_values(|ri: ResolvedInput| ri.children@);
    if inputs.len() == 0 {
        assert(spec_candidates(true, inputs) =~= mapped.flatten_alt());
    } else {
        law_dir_contents_one_level(inputs.drop_last());
        assert(mapped.drop_last() =~= inputs.drop_last().map_values(
            |ri: ResolvedInput| ri.children@,
        ));
        assert(mapped.last() == inputs.last().children@);
    }
}

/// Newer-than and older-than are strict: a candidate whose modification
/// time equals the reference time fails the conjunction as soon as either
/// test is enabled.
pub proof fn law_equal_mtime_fails(opt: Opt, t: i128, c: Candidate, f: FileFacts)
    requires
        c.facts == Some(f),
        f.mtime == t,
        opt.newer_than.is_some() || opt.older_than.is_some(),
    ensures
        !spec_conjunction(opt, Some(t), spec_display_name(c.path@), c.facts),
        spec_verdict(opt, Some(t), c) == opt.invert,
{
}

} // verus!
