//! Scenario tests for the predicate engine, on resolved metadata values.

use stest::{Candidate, FileFacts, Opt, ResolvedInput, RunError};

fn facts(mode: u32, size: u64, mtime: i128) -> FileFacts {
    FileFacts {
        mode,
        size,
        mtime,
        is_symlink: false,
        readable: false,
        writable: false,
        executable: false,
    }
}

fn regular_facts() -> FileFacts {
    facts(stest::S_IFREG | 0o644, 10, 1_000)
}

fn opt_with_files(files: &[&str]) -> Opt {
    let mut o = Opt::default();
    o.files = files.iter().map(|s| s.to_string()).collect();
    o
}

fn direct(path: &str, f: Option<FileFacts>) -> ResolvedInput {
    ResolvedInput { entry: Candidate { path: path.to_string(), facts: f }, children: vec![] }
}

#[test]
fn regular_file_passes_and_prints() {
    let mut opt = opt_with_files(&["a.txt"]);
    opt.regular = true;
    let inputs = vec![direct("a.txt", Some(regular_facts()))];
    let out = stest::run(&opt, None, &inputs).unwrap();
    assert!(out.outcome);
    assert_eq!(out.lines, vec!["a.txt".to_string()]);
}

#[test]
fn inverted_regular_file_fails_and_prints_nothing() {
    let mut opt = opt_with_files(&["a.txt"]);
    opt.regular = true;
    opt.invert = true;
    let inputs = vec![direct("a.txt", Some(regular_facts()))];
    let out = stest::run(&opt, None, &inputs).unwrap();
    assert!(!out.outcome);
    assert!(out.lines.is_empty());
}

#[test]
fn dir_contents_prints_only_the_subdirectory() {
    let mut opt = opt_with_files(&["/tmp/d"]);
    opt.directory = true;
    opt.dir_contents = true;
    let children = vec![
        Candidate { path: "/tmp/d/f".to_string(), facts: Some(regular_facts()) },
        Candidate {
            path: "/tmp/d/sub".to_string(),
            facts: Some(facts(stest::S_IFDIR | 0o755, 4096, 1_000)),
        },
    ];
    let inputs = vec![ResolvedInput {
        entry: Candidate { path: "/tmp/d".to_string(), facts: None },
        children,
    }];
    let out = stest::run(&opt, None, &inputs).unwrap();
    assert!(out.outcome);
    assert_eq!(out.lines, vec!["sub".to_string()]);
}

#[test]
fn empty_file_fails_not_empty() {
    let mut opt = opt_with_files(&["empty.txt"]);
    opt.not_empty = true;
    let inputs = vec![direct("empty.txt", Some(facts(stest::S_IFREG | 0o644, 0, 1_000)))];
    let out = stest::run(&opt, None, &inputs).unwrap();
    assert!(!out.outcome);
    assert!(out.lines.is_empty());
}

#[test]
fn unresolvable_entry_fails_every_test() {
    let opt = opt_with_files(&["missing-file"]);
    let inputs = vec![direct("missing-file", None)];
    let out = stest::run(&opt, None, &inputs).unwrap();
    assert!(!out.outcome);
    assert!(out.lines.is_empty());
}

#[test]
fn unresolvable_entry_passes_under_inversion() {
    let mut opt = opt_with_files(&["missing-file"]);
    opt.invert = true;
    let inputs = vec![direct("missing-file", None)];
    let out = stest::run(&opt, None, &inputs).unwrap();
    assert!(out.outcome);
    assert_eq!(out.lines, vec!["missing-file".to_string()]);
}

#[test]
fn invert_negates_each_verdict() {
    let cases = vec![
        Candidate { path: "a.txt".to_string(), facts: Some(regular_facts()) },
        Candidate { path: ".hidden".to_string(), facts: Some(regular_facts()) },
        Candidate { path: "gone".to_string(), facts: None },
        Candidate {
            path: "d".to_string(),
            facts: Some(facts(stest::S_IFDIR | 0o755, 4096, 1_000)),
        },
    ];
    let mut plain = Opt::default();
    plain.directory = true;
    let mut inverted = Opt::default();
    inverted.directory = true;
    inverted.invert = true;
    for c in &cases {
        let (v_plain, _) = stest::engine::test(&plain, None, c);
        let (v_inv, _) = stest::engine::test(&inverted, None, c);
        assert_eq!(v_inv, !v_plain);
    }
}

#[test]
fn outcome_is_false_for_empty_candidate_sequence() {
    let mut opt = opt_with_files(&["/tmp/unreadable"]);
    opt.dir_contents = true;
    let inputs = vec![ResolvedInput {
        entry: Candidate { path: "/tmp/unreadable".to_string(), facts: None },
        children: vec![],
    }];
    let out = stest::run(&opt, None, &inputs).unwrap();
    assert!(!out.outcome);
    assert!(out.lines.is_empty());
}

#[test]
fn outcome_is_true_when_any_candidate_passes() {
    let mut opt = opt_with_files(&["empty.txt", "full.txt"]);
    opt.not_empty = true;
    let inputs = vec![
        direct("empty.txt", Some(facts(stest::S_IFREG | 0o644, 0, 1_000))),
        direct("full.txt", Some(regular_facts())),
    ];
    let out = stest::run(&opt, None, &inputs).unwrap();
    assert!(out.outcome);
    assert_eq!(out.lines, vec!["full.txt".to_string()]);
}

#[test]
fn hidden_name_is_excluded_by_default() {
    let opt = opt_with_files(&[".hidden"]);
    let inputs = vec![direct(".hidden", Some(regular_facts()))];
    let out = stest::run(&opt, None, &inputs).unwrap();
    assert!(!out.outcome);
    assert!(out.lines.is_empty());
}

#[test]
fn dot_alone_is_excluded_by_default() {
    let mut opt = opt_with_files(&["."]);
    opt.directory = true;
    let inputs = vec![direct(".", Some(facts(stest::S_IFDIR | 0o755, 4096, 1_000)))];
    let out = stest::run(&opt, None, &inputs).unwrap();
    assert!(!out.outcome);
}

#[test]
fn hidden_name_passes_when_allowed() {
    let mut opt = opt_with_files(&[".hidden"]);
    opt.hidden = true;
    let inputs = vec![direct(".hidden", Some(regular_facts()))];
    let out = stest::run(&opt, None, &inputs).unwrap();
    assert!(out.outcome);
    assert_eq!(out.lines, vec![".hidden".to_string()]);
}

#[test]
fn equal_mtime_fails_newer_than() {
    let mut opt = opt_with_files(&["a.txt"]);
    opt.newer_than = Some("ref".to_string());
    let inputs = vec![direct("a.txt", Some(facts(stest::S_IFREG | 0o644, 10, 500)))];
    let out = stest::run(&opt, Some(500), &inputs).unwrap();
    assert!(!out.outcome);
}

#[test]
fn equal_mtime_fails_older_than() {
    let mut opt = opt_with_files(&["a.txt"]);
    opt.older_than = Some("ref".to_string());
    let inputs = vec![direct("a.txt", Some(facts(stest::S_IFREG | 0o644, 10, 500)))];
    let out = stest::run(&opt, Some(500), &inputs).unwrap();
    assert!(!out.outcome);
}

#[test]
fn strictly_newer_passes_newer_than() {
    let mut opt = opt_with_files(&["a.txt"]);
    opt.newer_than = Some("ref".to_string());
    let inputs = vec![direct("a.txt", Some(facts(stest::S_IFREG | 0o644, 10, 501)))];
    let out = stest::run(&opt, Some(500), &inputs).unwrap();
    assert!(out.outcome);
    assert_eq!(out.lines, vec!["a.txt".to_string()]);
}

#[test]
fn strictly_older_passes_older_than() {
    let mut opt = opt_with_files(&["a.txt"]);
    opt.older_than = Some("ref".to_string());
    let inputs = vec![direct("a.txt", Some(facts(stest::S_IFREG | 0o644, 10, 499)))];
    let out = stest::run(&opt, Some(500), &inputs).unwrap();
    assert!(out.outcome);
}

#[test]
fn quiet_suppresses_lines_but_not_outcome() {
    let mut opt = opt_with_files(&["a.txt"]);
    opt.regular = true;
    opt.quiet = true;
    let inputs = vec![direct("a.txt", Some(regular_facts()))];
    let out = stest::run(&opt, None, &inputs).unwrap();
    assert!(out.outcome);
    assert!(out.lines.is_empty());
}

#[test]
fn no_input_paths_is_rejected() {
    let opt = Opt::default();
    let inputs: Vec<ResolvedInput> = vec![];
    let r = stest::run(&opt, None, &inputs);
    assert_eq!(r.unwrap_err(), RunError::UnsupportedInput);
}

#[test]
fn set_uid_and_set_gid_are_independent() {
    let mut opt_uid = opt_with_files(&["a"]);
    opt_uid.set_uid_set = true;
    let mut opt_gid = opt_with_files(&["a"]);
    opt_gid.set_gid_set = true;

    let with_uid = Some(facts(stest::S_IFREG | stest::S_ISUID | 0o644, 10, 1_000));
    let with_gid = Some(facts(stest::S_IFREG | stest::S_ISGID | 0o644, 10, 1_000));

    let out = stest::run(&opt_uid, None, &vec![direct("a", with_uid)]).unwrap();
    assert!(out.outcome);
    let out = stest::run(&opt_uid, None, &vec![direct("a", with_gid)]).unwrap();
    assert!(!out.outcome);
    let out = stest::run(&opt_gid, None, &vec![direct("a", with_gid)]).unwrap();
    assert!(out.outcome);
    let out = stest::run(&opt_gid, None, &vec![direct("a", with_uid)]).unwrap();
    assert!(!out.outcome);
}

#[test]
fn special_file_classes_match_their_type_codes() {
    let fifo = facts(stest::S_IFIFO | 0o644, 0, 1_000);
    let block = facts(stest::S_IFBLK | 0o644, 0, 1_000);
    let chr = facts(stest::S_IFCHR | 0o644, 0, 1_000);

    let mut opt = opt_with_files(&["p"]);
    opt.fifo = true;
    assert!(stest::run(&opt, None, &vec![direct("p", Some(fifo))]).unwrap().outcome);
    assert!(!stest::run(&opt, None, &vec![direct("p", Some(block))]).unwrap().outcome);

    let mut opt = opt_with_files(&["b"]);
    opt.block_special = true;
    assert!(stest::run(&opt, None, &vec![direct("b", Some(block))]).unwrap().outcome);
    assert!(!stest::run(&opt, None, &vec![direct("b", Some(chr))]).unwrap().outcome);

    let mut opt = opt_with_files(&["c"]);
    opt.char_special = true;
    assert!(stest::run(&opt, None, &vec![direct("c", Some(chr))]).unwrap().outcome);
    assert!(!stest::run(&opt, None, &vec![direct("c", Some(fifo))]).unwrap().outcome);
}

#[test]
fn symbolic_link_test_reads_the_unfollowed_answer() {
    let mut link = regular_facts();
    link.is_symlink = true;
    let mut opt = opt_with_files(&["l"]);
    opt.symbolic_link = true;
    assert!(stest::run(&opt, None, &vec![direct("l", Some(link))]).unwrap().outcome);
    assert!(!stest::run(&opt, None, &vec![direct("l", Some(regular_facts()))]).unwrap().outcome);
}

#[test]
fn access_tests_read_the_access_answers() {
    let mut rw = regular_facts();
    rw.readable = true;
    rw.writable = true;

    let mut opt = opt_with_files(&["f"]);
    opt.readable = true;
    assert!(stest::run(&opt, None, &vec![direct("f", Some(rw))]).unwrap().outcome);

    let mut opt = opt_with_files(&["f"]);
    opt.writable = true;
    assert!(stest::run(&opt, None, &vec![direct("f", Some(rw))]).unwrap().outcome);

    let mut opt = opt_with_files(&["f"]);
    opt.executable = true;
    assert!(!stest::run(&opt, None, &vec![direct("f", Some(rw))]).unwrap().outcome);
}

#[test]
fn both_references_share_one_timestamp() {
    // With both reference tests configured the newer-than file is the one
    // resolved, and both strict comparisons read that single timestamp, so
    // no entry can satisfy both at once.
    let mut opt = opt_with_files(&["a.txt"]);
    opt.newer_than = Some("n".to_string());
    opt.older_than = Some("o".to_string());
    for mt in [499i128, 500, 501] {
        let inputs = vec![direct("a.txt", Some(facts(stest::S_IFREG | 0o644, 10, mt)))];
        let out = stest::run(&opt, Some(500), &inputs).unwrap();
        assert!(!out.outcome);
    }
}

#[test]
fn lines_follow_input_order_across_directories() {
    let mut opt = opt_with_files(&["d1", "d2"]);
    opt.regular = true;
    opt.dir_contents = true;
    let inputs = vec![
        ResolvedInput {
            entry: Candidate { path: "d1".to_string(), facts: None },
            children: vec![
                Candidate { path: "d1/b".to_string(), facts: Some(regular_facts()) },
                Candidate { path: "d1/a".to_string(), facts: Some(regular_facts()) },
            ],
        },
        ResolvedInput {
            entry: Candidate { path: "d2".to_string(), facts: None },
            children: vec![Candidate { path: "d2/c".to_string(), facts: Some(regular_facts()) }],
        },
    ];
    let out = stest::run(&opt, None, &inputs).unwrap();
    assert!(out.outcome);
    assert_eq!(out.lines, vec!["b".to_string(), "a".to_string(), "c".to_string()]);
}

#[test]
fn reduce_is_logical_or() {
    assert!(!stest::reduce(false, false));
    assert!(stest::reduce(false, true));
    assert!(stest::reduce(true, false));
    assert!(stest::reduce(true, true));
}
