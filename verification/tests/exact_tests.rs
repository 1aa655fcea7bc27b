use datatest_stable::Case;
use datatest_stable::ConfigError;
use datatest_stable::EmbeddedFile;
use datatest_stable::ExactOutcome;
use datatest_stable::FixtureSource;
use datatest_stable::NextestKind;
use datatest_stable::Requirements;
use datatest_stable::TestFn;
use datatest_stable::TestFnBase;
use datatest_stable::runner::check_exact_matches;

fn fixtures() -> FixtureSource {
    FixtureSource::EmbeddedTree {
        root: "fixtures".to_string(),
        files: vec![
            EmbeddedFile {
                path: "a.txt".to_string(),
                contents: b"aaa".to_vec(),
            },
            EmbeddedFile {
                path: "b.skip.txt".to_string(),
                contents: b"bbb".to_vec(),
            },
        ],
    }
}

fn register(group: &str, pattern: &str) -> Requirements {
    Requirements::new(
        TestFn::Base(TestFnBase::Path(0)),
        group.to_string(),
        fixtures(),
        pattern.to_string(),
    )
}

fn case(name: &str) -> Case {
    Case {
        name: name.to_string(),
        path: name.to_string(),
        test: TestFn::Base(TestFnBase::Path(0)),
    }
}

#[test]
fn exact_resolution_ignores_the_pattern() {
    // the registered pattern excludes b.skip.txt, yet the exact filter
    // still resolves it
    let req = register("g1", r"^.*(?<!\.skip)\.txt$");
    match req.exact("g1::b.skip.txt") {
        ExactOutcome::Resolved(c) => {
            assert_eq!(c.name, "g1::b.skip.txt");
            assert_eq!(c.path, "b.skip.txt");
        }
        _ => panic!("exact resolution is name-driven, not pattern-driven"),
    }
}

#[test]
fn exact_resolution_rejects_other_groups() {
    let req = register("g1", r"^.*\.txt$");
    assert!(matches!(
        req.exact("g2::a.txt"),
        ExactOutcome::NotThisRequirement
    ));
    assert!(matches!(
        req.exact("g1:a.txt"),
        ExactOutcome::NotThisRequirement
    ));
}

#[test]
fn exact_resolution_checks_the_table() {
    let req = register("g1", r"^.*\.txt$");
    assert!(matches!(
        req.exact("g1::missing.txt"),
        ExactOutcome::NotThisRequirement
    ));
    assert!(matches!(req.exact("g1::a.txt"), ExactOutcome::Resolved(_)));
}

#[test]
fn on_disk_resolution_hands_back_the_joined_path() {
    let req = Requirements::new(
        TestFn::Base(TestFnBase::Path(0)),
        "g".to_string(),
        FixtureSource::Directory {
            root: "tests/files".to_string(),
        },
        r"^.*\.txt$".to_string(),
    );
    match req.exact("g::a.txt") {
        ExactOutcome::OnDisk(c) => {
            assert_eq!(c.name, "g::a.txt");
            assert_eq!(c.path, "tests/files/a.txt");
        }
        _ => panic!("a directory source defers the existence check"),
    }
}

#[test]
fn zero_matches_is_fatal_under_one_process_per_test() {
    let kind = NextestKind::InUse {
        process_per_test: true,
    };
    match check_exact_matches(kind, vec![], "g::a.txt") {
        Err(ConfigError::NoExactMatch { filter }) => assert_eq!(filter, "g::a.txt"),
        _ => panic!("zero matches must be fatal"),
    }
}

#[test]
fn zero_matches_pass_under_other_orchestration_modes() {
    // "nothing selected" is tolerated outside one-process-per-test
    let kind = NextestKind::InUse {
        process_per_test: false,
    };
    let passed = check_exact_matches(kind, vec![], "g::a.txt").expect("tolerated");
    assert!(passed.is_empty());

    let passed = check_exact_matches(NextestKind::NotInUse, vec![], "g::a.txt").expect("tolerated");
    assert!(passed.is_empty());
}

#[test]
fn two_matches_are_fatal_under_one_process_per_test() {
    let kind = NextestKind::InUse {
        process_per_test: true,
    };
    let found = vec![case("g1::a.txt"), case("g2::a.txt")];
    match check_exact_matches(kind, found, "a.txt") {
        Err(ConfigError::MultipleExactMatches { filter, count }) => {
            assert_eq!(filter, "a.txt");
            assert_eq!(count, 2);
        }
        _ => panic!("an ambiguous exact filter must be fatal"),
    }
}

#[test]
fn one_match_passes_under_one_process_per_test() {
    let kind = NextestKind::InUse {
        process_per_test: true,
    };
    let found = vec![case("g1::a.txt")];
    let passed = check_exact_matches(kind, found, "g1::a.txt").expect("one match is fine");
    assert_eq!(passed.len(), 1);
    assert_eq!(passed[0].name, "g1::a.txt");
}

#[test]
fn multiple_matches_pass_without_one_process_per_test() {
    let kind = NextestKind::InUse {
        process_per_test: false,
    };
    let found = vec![case("g1::a.txt"), case("g2::a.txt")];
    let passed = check_exact_matches(kind, found, "a.txt").expect("allowed");
    assert_eq!(passed.len(), 2);

    let found = vec![case("g1::a.txt"), case("g2::a.txt")];
    let passed = check_exact_matches(NextestKind::NotInUse, found, "a.txt").expect("allowed");
    assert_eq!(passed.len(), 2);
}

#[test]
fn ambiguous_group_prefixes_resolve_in_both_requirements() {
    // "g1::sub::a.txt" belongs to group "g1" with path "sub/a.txt"
    // encoded... and to group "g1::sub" with path "a.txt".
    let outer = Requirements::new(
        TestFn::Base(TestFnBase::Path(0)),
        "g1".to_string(),
        FixtureSource::EmbeddedTree {
            root: "fixtures".to_string(),
            files: vec![EmbeddedFile {
                path: "sub::a.txt".to_string(),
                contents: b"x".to_vec(),
            }],
        },
        r"^.*$".to_string(),
    );
    let inner = Requirements::new(
        TestFn::Base(TestFnBase::Path(1)),
        "g1::sub".to_string(),
        FixtureSource::EmbeddedTree {
            root: "fixtures".to_string(),
            files: vec![EmbeddedFile {
                path: "a.txt".to_string(),
                contents: b"y".to_vec(),
            }],
        },
        r"^.*$".to_string(),
    );
    let filter = "g1::sub::a.txt";
    let mut found = Vec::new();
    for req in [&outer, &inner] {
        match req.exact(filter) {
            ExactOutcome::Resolved(c) => found.push(c),
            ExactOutcome::OnDisk(_) => panic!("embedded sources resolve here"),
            ExactOutcome::NotThisRequirement => {}
        }
    }
    assert_eq!(found.len(), 2);
    let kind = NextestKind::InUse {
        process_per_test: true,
    };
    assert!(matches!(
        check_exact_matches(kind, found, filter),
        Err(ConfigError::MultipleExactMatches { .. })
    ));
}
