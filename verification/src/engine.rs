//! The predicate engine: the per-entry conjunction of enabled tests, the
//! inversion step, candidate enumeration, and the aggregation of verdicts
//! into one overall outcome.

use vstd::prelude::*;

use crate::config::{spec_needs_reference, Candidate, FileFacts, Opt, ResolvedInput, RunError,
    RunOutput};
use crate::mode_bits::{s_isset, s_isval, spec_isset, spec_isval, S_IFBLK, S_IFCHR, S_IFDIR,
    S_IFIFO, S_IFREG, S_ISGID, S_ISUID};
use crate::names::{display_name, is_hidden, spec_display_name, spec_is_hidden};

verus! {

/// The conjunction of every enabled test for one entry, before inversion.
/// An entry whose metadata could not be resolved fails it outright. Each
/// enabled test must hold; a disabled test constrains nothing. The
/// newer-than and older-than comparisons are strict and read the single
/// reference timestamp resolved before the run.
pub open spec fn spec_conjunction(
    opt: Opt,
    compare: Option<i128>,
    name: Seq<char>,
    facts: Option<FileFacts>,
) -> bool {
    match facts {
        Option::None => false,
        Option::Some(f) => (opt.hidden || !spec_is_hidden(name))
            && (!opt.block_special || spec_isval(S_IFBLK, f.mode))
            && (!opt.char_special || spec_isval(S_IFCHR, f.mode))
            && (!opt.directory || spec_isval(S_IFDIR, f.mode))
            && (!opt.regular || spec_isval(S_IFREG, f.mode))
            && (!opt.set_gid_set || spec_isset(S_ISGID, f.mode))
            && (!opt.symbolic_link || f.is_symlink)
            && (!opt.newer_than.is_some() || (compare matches Some(t) && t < f.mtime))
            && (!opt.older_than.is_some() || (compare matches Some(t) && f.mtime < t))
            && (!opt.fifo || spec_isval(S_IFIFO, f.mode))
            && (!opt.readable || f.readable)
            && (!opt.not_empty || f.size > 0)
            && (!opt.set_uid_set || spec_isset(S_ISUID, f.mode))
            && (!opt.writable || f.writable)
            && (!opt.executable || f.executable),
    }
}

/// The verdict of one candidate: the conjunction over its display name and
/// facts, negated when invert mode is set. Inversion wraps the whole
/// predicate, the unresolvable-metadata case included.
pub open spec fn spec_verdict(opt: Opt, compare: Option<i128>, c: Candidate) -> bool {
    spec_conjunction(opt, compare, spec_display_name(c.path@), c.facts) != opt.invert
}

/// Evaluates the conjunction of enabled tests for one entry, stopping at
/// the first failing test.
fn conjunction(opt: &Opt, compare: Option<i128>, name: &str, facts: &Option<FileFacts>) -> (b:
    bool)
    requires
        spec_needs_reference(*opt) ==> compare.is_some(),
    ensures
        b == spec_conjunction(*opt, compare, name@, *facts),
{
    match facts {
        Option::None => false,
        Option::Some(f) => (opt.hidden || !is_hidden(name)) && (!opt.block_special || s_isval(
            S_IFBLK,
            f.mode,
        )) && (!opt.char_special || s_isval(S_IFCHR, f.mode)) && (!opt.directory || s_isval(
            S_IFDIR,
            f.mode,
        )) && (!opt.regular || s_isval(S_IFREG, f.mode)) && (!opt.set_gid_set || s_isset(
            S_ISGID,
            f.mode,
        )) && (!opt.symbolic_link || f.is_symlink) && (!opt.newer_than.is_some()
            || compare.unwrap() < f.mtime) && (!opt.older_than.is_some() || f.mtime
            < compare.unwrap()) && (!opt.fifo || s_isval(S_IFIFO, f.mode)) && (!opt.readable
            || f.readable) && (!opt.not_empty || f.size > 0) && (!opt.set_uid_set || s_isset(
            S_ISUID,
            f.mode,
        )) && (!opt.writable || f.writable) && (!opt.executable || f.executable),
    }
}

/// Evaluates one candidate: derives its display name, applies the
/// conjunction of enabled tests and then inversion. Returns the verdict
/// together with the display name to print for a passing entry.
pub fn test(opt: &Opt, compare: Option<i128>, cand: &Candidate) -> (r: (bool, String))
    requires
        spec_needs_reference(*opt) ==> compare.is_some(),
    ensures
        r.0 == spec_verdict(*opt, compare, *cand),
        r.1@ == spec_display_name(cand.path@),
{
    let name = display_name(cand.path.as_str());
    let c = conjunction(opt, compare, name.as_str(), &cand.facts);
    let v = c != opt.invert;
    (v, name)
}

/// Accumulates per-entry verdicts into the overall outcome: the outcome is
/// true as soon as any entry passes.
pub fn reduce(acc: bool, x: bool) -> (r: bool)
    ensures
        r == (acc || x),
{
    acc || x
}

/// The sequence of candidates a run evaluates: in normal mode the inputs
/// themselves, in directory-contents mode the direct children of each
/// input, in input order. Children are plain candidates; nothing descends
/// further.
pub open spec fn spec_candidates(dir_contents: bool, inputs: Seq<ResolvedInput>) -> Seq<
    Candidate,
>
    decreases inputs.len(),
{
    if inputs.len() == 0 {
        Seq::empty()
    } else {
        spec_candidates(dir_contents, inputs.drop_last()) + (if dir_contents {
            inputs.last().children@
        } else {
            seq![inputs.last().entry]
        })
    }
}

/// The overall outcome over a candidate sequence: the disjunction of the
/// per-candidate verdicts, false for the empty sequence.
pub open spec fn spec_outcome(opt: Opt, compare: Option<i128>, cands: Seq<Candidate>) -> bool
    decreases cands.len(),
{
    if cands.len() == 0 {
        false
    } else {
        spec_outcome(opt, compare, cands.drop_last()) || spec_verdict(opt, compare, cands.last())
    }
}

/// True when at least one candidate's post-inversion verdict is true.
pub open spec fn spec_any_passes(opt: Opt, compare: Option<i128>, cands: Seq<Candidate>) -> bool {
    exists|k: int| 0 <= k < cands.len() && spec_verdict(opt, compare, #[trigger] cands[k])
}

/// The display names of the passing candidates, in evaluation order.
pub open spec fn spec_lines(opt: Opt, compare: Option<i128>, cands: Seq<Candidate>) -> Seq<
    Seq<char>,
>
    decreases cands.len(),
{
    if cands.len() == 0 {
        Seq::empty()
    } else {
        spec_lines(opt, compare, cands.drop_last()) + (if spec_verdict(
            opt,
            compare,
            cands.last(),
        ) {
            seq![spec_display_name(cands.last().path@)]
        } else {
            Seq::empty()
        })
    }
}

/// The aggregation rule in quantifier form: the folded outcome is true
/// exactly when some candidate's verdict is true, and in particular it is
/// false for the empty candidate sequence.
pub proof fn lemma_outcome_is_any_passes(opt: Opt, compare: Option<i128>, cands: Seq<Candidate>)
    ensures
        spec_outcome(opt, compare, cands) == spec_any_passes(opt, compare, cands),
    decreases cands.len(),
{
    if cands.len() == 0 {
    } else {
        let pre = cands.drop_last();
        lemma_outcome_is_any_passes(opt, compare, pre);
        if spec_outcome(opt, compare, cands) {
            if spec_outcome(opt, compare, pre) {
                let k = choose|k: int|
                    0 <= k < pre.len() && spec_verdict(opt, compare, #[trigger] pre[k]);
                assert(cands[k] == pre[k]);
                assert(spec_any_passes(opt, compare, cands));
            } else {
                assert(spec_verdict(opt, compare, cands[cands.len() - 1]));
            }
        } else {
            assert forall|k: int| 0 <= k < cands.len() implies !spec_verdict(
                opt,
                compare,
                #[trigger] cands[k],
            ) by {
                if k < cands.len() - 1 {
                    assert(cands[k] == pre[k]);
                } else {
                    assert(cands[k] == cands.last());
                }
            }
        }
    }
}

/// The outcome of a concatenation is the disjunction of the outcomes of
/// its parts.
proof fn lemma_outcome_concat(opt: Opt, compare: Option<i128>, a: Seq<Candidate>, b: Seq<
    Candidate,
>)
    ensures
        spec_outcome(opt, compare, a + b) == (spec_outcome(opt, compare, a) || spec_outcome(
            opt,
            compare,
            b,
        )),
    decreases b.len(),
{
    if b.len() == 0 {
        assert(a + b =~= a);
    } else {
        lemma_outcome_concat(opt, compare, a, b.drop_last());
        assert((a + b).drop_last() =~= a + b.drop_last());
        assert((a + b).last() == b.last());
    }
}

/// The printed lines of a concatenation are the lines of its parts, in
/// order.
proof fn lemma_lines_concat(opt: Opt, compare: Option<i128>, a: Seq<Candidate>, b: Seq<
    Candidate,
>)
    ensures
        spec_lines(opt, compare, a + b) == spec_lines(opt, compare, a) + spec_lines(
            opt,
            compare,
            b,
        ),
    decreases b.len(),
{
    if b.len() == 0 {
        assert(a + b =~= a);
        assert(spec_lines(opt, compare, a) + spec_lines(opt, compare, b) =~= spec_lines(
            opt,
            compare,
            a,
        ));
    } else {
        lemma_lines_concat(opt, compare, a, b.drop_last());
        assert((a + b).drop_last() =~= a + b.drop_last());
        assert((a + b).last() == b.last());
        assert(spec_lines(opt, compare, a) + spec_lines(opt, compare, b) =~= (spec_lines(
            opt,
            compare,
            a,
        ) + spec_lines(opt, compare, b.drop_last())) + (if spec_verdict(opt, compare, b.last()) {
            seq![spec_display_name(b.last().path@)]
        } else {
            Seq::empty()
        }));
    }
}

/// The views of a vector of owned strings.
pub open spec fn spec_views(lines: Seq<String>) -> Seq<Seq<char>> {
    lines.map_values(|s: String| s@)
}

/// Evaluates the direct children of one input directory, accumulating
/// their verdicts and collecting the display names of the passing ones.
pub fn test_dir(opt: &Opt, compare: Option<i128>, children: &Vec<Candidate>) -> (r: (
    bool,
    Vec<String>,
))
    requires
        spec_needs_reference(*opt) ==> compare.is_some(),
    ensures
        r.0 == spec_outcome(*opt, compare, children@),
        spec_views(r.1@) == spec_lines(*opt, compare, children@),
{
    let mut acc: bool = false;
    let mut lines: Vec<String> = Vec::new();
    let mut j: usize = 0;
    while j < children.len()
        invariant
            spec_needs_reference(*opt) ==> compare.is_some(),
            j <= children.len(),
            acc == spec_outcome(*opt, compare, children@.take(j as int)),
            spec_views(lines@) == spec_lines(*opt, compare, children@.take(j as int)),
        decreases children.len() - j,
    {
        let ghost pre = children@.take(j as int);
        let ghost cur = children@.take(j as int + 1);
        let (v, name) = crate::engine::test(opt, compare, &children[j]);
        proof {
            assert(cur.drop_last() =~= pre);
            assert(cur.last() == children@[j as int]);
        }
        if v {
            let ghost old_lines = lines@;
            lines.push(name);
            proof {
                assert(spec_views(lines@) =~= spec_views(old_lines).push(name@));
                assert(spec_views(lines@) =~= spec_lines(*opt, compare, cur));
            }
        } else {
            proof {
                assert(spec_lines(*opt, compare, cur) =~= spec_lines(*opt, compare, pre));
            }
        }
        acc = reduce(acc, v);
        j += 1;
    }
    proof {
        assert(children@.take(children@.len() as int) =~= children@);
    }
    (acc, lines)
}

/// Evaluates every candidate drawn from the configured inputs (the
/// inputs themselves, or in directory-contents mode the direct children
/// of each input), folding the verdicts into the overall outcome and
/// collecting the display names of the passing candidates in order. Every
/// candidate is visited; no entry short-circuits a later one.
pub fn run_opts(opt: &Opt, compare: Option<i128>, inputs: &Vec<ResolvedInput>) -> (r: (
    bool,
    Vec<String>,
))
    requires
        spec_needs_reference(*opt) ==> compare.is_some(),
    ensures
        r.0 == spec_outcome(*opt, compare, spec_candidates(opt.dir_contents, inputs@)),
        spec_views(r.1@) == spec_lines(*opt, compare, spec_candidates(opt.dir_contents, inputs@)),
{
    let mut acc: bool = false;
    let mut lines: Vec<String> = Vec::new();
    let mut i: usize = 0;
    while i < inputs.len()
        invariant
            spec_needs_reference(*opt) ==> compare.is_some(),
            i <= inputs.len(),
            acc == spec_outcome(
                *opt,
                compare,
                spec_candidates(opt.dir_contents, inputs@.take(i as int)),
            ),
            spec_views(lines@) == spec_lines(
                *opt,
                compare,
                spec_candidates(opt.dir_contents, inputs@.take(i as int)),
            ),
        decreases inputs.len() - i,
    {
        let ghost done = spec_candidates(opt.dir_contents, inputs@.take(i as int));
        proof {
            assert(inputs@.take(i as int + 1).drop_last() =~= inputs@.take(i as int));
            assert(inputs@.take(i as int + 1).last() == inputs@[i as int]);
        }
        let input = &inputs[i];
        if opt.dir_contents {
            let (v, mut ls) = test_dir(opt, compare, &input.children);
            proof {
                lemma_outcome_concat(*opt, compare, done, input.children@);
                lemma_lines_concat(*opt, compare, done, input.children@);
            }
            let ghost old_lines = lines@;
            let ghost added = ls@;
            lines.append(&mut ls);
            proof {
                assert(spec_views(lines@) =~= spec_views(old_lines) + spec_views(added));
            }
            acc = reduce(acc, v);
        } else {
            let ghost one = seq![input.entry];
            let (v, name) = crate::engine::test(opt, compare, &input.entry);
            proof {
                lemma_outcome_concat(*opt, compare, done, one);
                lemma_lines_concat(*opt, compare, done, one);
                let e = Seq::<Candidate>::empty();
                assert(one.drop_last() =~= e);
                assert(one.last() == input.entry);
                assert(spec_outcome(*opt, compare, e) == false);
                assert(spec_lines(*opt, compare, e) =~= Seq::<Seq<char>>::empty());
                assert(spec_outcome(*opt, compare, one) == spec_verdict(
                    *opt,
                    compare,
                    input.entry,
                ));
            }
            if v {
                let ghost old_lines = lines@;
                lines.push(name);
                proof {
                    assert(spec_views(lines@) =~= spec_views(old_lines).push(name@));
                    assert(spec_lines(*opt, compare, one) =~= seq![
                        spec_display_name(input.entry.path@),
                    ]);
                    assert(spec_views(lines@) =~= spec_lines(*opt, compare, done) + spec_lines(
                        *opt,
                        compare,
                        one,
                    ));
                }
            } else {
                proof {
                    assert(spec_lines(*opt, compare, one) =~= Seq::<Seq<char>>::empty());
                    assert(spec_views(lines@) =~= spec_lines(*opt, compare, done) + spec_lines(
                        *opt,
                        compare,
                        one,
                    ));
                }
            }
            acc = reduce(acc, v);
        }
        i += 1;
    }
    proof {
        assert(inputs@.take(inputs@.len() as int) =~= inputs@);
    }
    (acc, lines)
}

/// The reference path a run resolves before evaluating any candidate:
/// the newer-than path when one is configured, else the older-than path,
/// else none. When both are configured the newer-than path is the one
/// resolved.
pub fn reference_path(opt: &Opt) -> (r: Option<&String>)
    ensures
        r.is_some() == spec_needs_reference(*opt),
        opt.newer_than matches Some(n) ==> (r matches Some(p) && *p == n),
        opt.newer_than.is_none() ==> (opt.older_than matches Some(o) ==> (r matches Some(p) && *p
            == o)),
{
    if opt.newer_than.is_some() {
        opt.newer_than.as_ref()
    } else {
        opt.older_than.as_ref()
    }
}

/// Runs the whole filter over the resolved inputs: rejects a run with no
/// input paths, evaluates every candidate, and returns the overall
/// outcome together with the display names of the passing candidates (no
/// names in quiet mode).
pub fn run(opt: &Opt, compare: Option<i128>, inputs: &Vec<ResolvedInput>) -> (r: Result<
    RunOutput,
    RunError,
>)
    requires
        spec_needs_reference(*opt) ==> compare.is_some(),
        inputs@.len() == opt.files@.len(),
        forall|k: int| 0 <= k < inputs@.len() ==> (#[trigger] inputs@[k]).entry.path@
            == opt.files@[k]@,
    ensures
        r.is_err() <==> opt.files@.len() == 0,
        r matches Err(e) ==> e == RunError::UnsupportedInput,
        r matches Ok(out) ==> out.outcome == spec_any_passes(
            *opt,
            compare,
            spec_candidates(opt.dir_contents, inputs@),
        ),
        r matches Ok(out) ==> (opt.quiet ==> out.lines@.len() == 0),
        r matches Ok(out) ==> (!opt.quiet ==> spec_views(out.lines@) == spec_lines(
            *opt,
            compare,
            spec_candidates(opt.dir_contents, inputs@),
        )),
{
    if opt.files.len() == 0 {
        return Err(RunError::UnsupportedInput);
    }
    let (outcome, lines) = run_opts(opt, compare, inputs);
    proof {
        lemma_outcome_is_any_passes(*opt, compare, spec_candidates(opt.dir_contents, inputs@));
    }
    if opt.quiet {
        Ok(RunOutput { outcome, lines: Vec::new() })
    } else {
        Ok(RunOutput { outcome, lines })
    }
}

} // verus!
