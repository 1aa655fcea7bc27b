use datatest_stable::Case;
use datatest_stable::ConfigError;
use datatest_stable::Coordinator;
use datatest_stable::EmbeddedFile;
use datatest_stable::FixtureSource;
use datatest_stable::NextestKind;
use datatest_stable::Requirements;
use datatest_stable::RunMode;
use datatest_stable::RunStatus;
use datatest_stable::TestArgs;
use datatest_stable::TestFn;
use datatest_stable::TestFnBase;
use datatest_stable::runner::exact_filter;
use datatest_stable::runner::is_full_scan_forbidden;
use datatest_stable::runner::select_mode;
use datatest_stable::runner::sort_test_cases;

fn files_tree() -> FixtureSource {
    FixtureSource::EmbeddedTree {
        root: "tests/files".to_string(),
        files: vec![
            EmbeddedFile {
                path: "a.txt".to_string(),
                contents: b"aaa".to_vec(),
            },
            EmbeddedFile {
                path: "b.txt".to_string(),
                contents: b"bbb".to_vec(),
            },
            EmbeddedFile {
                path: "c.skip.txt".to_string(),
                contents: b"ccc".to_vec(),
            },
        ],
    }
}

fn expand_args() -> TestArgs {
    TestArgs {
        exact: false,
        skip: vec![],
        filter: None,
        list: false,
    }
}

#[test]
fn verify_counters() {
    let requirements = vec![
        Requirements::new(
            TestFn::Base(TestFnBase::Path(0)),
            "test_artifact".to_string(),
            files_tree(),
            r"^.*$".to_string(),
        ),
        Requirements::new(
            TestFn::Base(TestFnBase::Utf8Path(1)),
            "test_artifact_utf8".to_string(),
            files_tree(),
            r"^.*$".to_string(),
        ),
    ];

    let mut coordinator = Coordinator::new();
    let mode = coordinator
        .select(&expand_args(), None)
        .expect("expansion is allowed");
    assert!(matches!(mode, RunMode::Expand));

    let mut all = Vec::new();
    for req in &requirements {
        let entries = req.source.enumerate_embedded();
        let cases = req.expand(&entries).expect("every file matches");
        all.extend(cases);
    }
    coordinator.collect(sort_test_cases(all));

    let mut setup_counter = 0usize;
    let mut teardown_counter = 0usize;
    let mut test_artifact_counter = 0usize;
    let mut test_artifact_utf8_counter = 0usize;

    coordinator.record_setup();
    setup_counter += 1;
    for i in 0..coordinator.case_count() {
        let fn_id = coordinator.case_at(i).test.fn_id();
        match fn_id {
            0 => test_artifact_counter += 1,
            1 => test_artifact_utf8_counter += 1,
            _ => panic!("unknown registration index"),
        }
        coordinator.record_case_result(false);
    }
    coordinator.record_teardown();
    teardown_counter += 1;
    let status = coordinator.report();

    // Setup should be called exactly once.
    assert_eq!(setup_counter, 1);
    assert_eq!(coordinator.setup_count(), 1);

    // Teardown should be called exactly once.
    assert_eq!(teardown_counter, 1);
    assert_eq!(coordinator.teardown_count(), 1);

    // Each test function should be called once per file in tests/files.
    let file_count = 3;
    assert_eq!(test_artifact_counter, file_count);
    assert_eq!(test_artifact_utf8_counter, file_count);

    assert_eq!(coordinator.run_count(), 2 * file_count);
    assert_eq!(coordinator.failure_count(), 0);
    assert_eq!(status, RunStatus::Success);
}

#[test]
fn a_failing_case_fails_the_run() {
    let mut coordinator = Coordinator::new();
    coordinator
        .select(&expand_args(), None)
        .expect("expansion is allowed");
    coordinator.collect(vec![Case {
        name: "g::a.txt".to_string(),
        path: "a.txt".to_string(),
        test: TestFn::Base(TestFnBase::Path(0)),
    }]);
    coordinator.record_setup();
    coordinator.record_case_result(true);
    coordinator.record_teardown();
    assert_eq!(coordinator.report(), RunStatus::Failed);
    assert_eq!(coordinator.failure_count(), 1);
}

#[test]
fn exact_filter_needs_exact_and_no_skips() {
    let args = TestArgs {
        exact: true,
        skip: vec![],
        filter: Some("g::a.txt".to_string()),
        list: false,
    };
    assert_eq!(exact_filter(&args), Some(&"g::a.txt".to_string()));

    let args = TestArgs {
        exact: true,
        skip: vec!["skipped".to_string()],
        filter: Some("g::a.txt".to_string()),
        list: false,
    };
    assert_eq!(exact_filter(&args), None);

    let args = TestArgs {
        exact: false,
        skip: vec![],
        filter: Some("g::a.txt".to_string()),
        list: false,
    };
    assert_eq!(exact_filter(&args), None);
}

#[test]
fn forbidding_a_full_scan_without_a_filter_is_fatal() {
    let args = expand_args();
    assert!(is_full_scan_forbidden(&args, Some("1")));
    assert!(!is_full_scan_forbidden(&args, Some("0")));
    assert!(!is_full_scan_forbidden(&args, None));
    match select_mode(&args, Some("1")) {
        Err(ConfigError::FullScanForbidden) => {}
        _ => panic!("a forbidden full scan without an exact filter must be fatal"),
    }
    assert_eq!(
        ConfigError::FullScanForbidden.message(),
        "Exact filter was expected to be used"
    );
}

#[test]
fn listing_is_allowed_even_when_scans_are_forbidden() {
    let args = TestArgs {
        exact: false,
        skip: vec![],
        filter: None,
        list: true,
    };
    assert!(!is_full_scan_forbidden(&args, Some("1")));
    assert!(matches!(select_mode(&args, Some("1")), Ok(RunMode::Expand)));
}

#[test]
fn an_exact_filter_selects_exact_mode() {
    let args = TestArgs {
        exact: true,
        skip: vec![],
        filter: Some("g::a.txt".to_string()),
        list: false,
    };
    match select_mode(&args, Some("1")) {
        Ok(RunMode::Exact(f)) => assert_eq!(f, "g::a.txt"),
        _ => panic!("an eligible exact filter selects exact mode"),
    }
}

#[test]
fn determine_reads_the_orchestration_signals() {
    assert_eq!(NextestKind::determine(None, None), NextestKind::NotInUse);
    assert_eq!(
        NextestKind::determine(Some("0"), None),
        NextestKind::NotInUse
    );
    assert_eq!(
        NextestKind::determine(Some("1"), None),
        NextestKind::InUse {
            process_per_test: false
        }
    );
    assert_eq!(
        NextestKind::determine(Some("1"), Some("process-per-test")),
        NextestKind::InUse {
            process_per_test: true
        }
    );
    assert_eq!(
        NextestKind::determine(Some("1"), Some("other")),
        NextestKind::InUse {
            process_per_test: false
        }
    );
}

#[test]
fn cases_are_sorted_by_display_name() {
    let case = |name: &str| Case {
        name: name.to_string(),
        path: name.to_string(),
        test: TestFn::Base(TestFnBase::Path(0)),
    };
    let sorted = sort_test_cases(vec![
        case("g2::b.txt"),
        case("g1::a.txt"),
        case("g2::a.txt"),
        case("g1::a.txt"),
    ]);
    let names: Vec<&str> = sorted.iter().map(|c| c.name.as_str()).collect();
    assert_eq!(names, vec!["g1::a.txt", "g1::a.txt", "g2::a.txt", "g2::b.txt"]);
}

#[test]
fn error_messages_name_the_offender() {
    let err = ConfigError::InvalidPattern {
        pattern: "(bad".to_string(),
    };
    assert_eq!(err.message(), "invalid regular expression: '(bad'");

    let err = ConfigError::NoExactMatch {
        filter: "g::a.txt".to_string(),
    };
    assert_eq!(err.message(), "Failed to find exact match for filter g::a.txt");

    let err = ConfigError::MultipleExactMatches {
        filter: "a.txt".to_string(),
        count: 2,
    };
    assert_eq!(
        err.message(),
        "Only expected one but found 2 exact matches for filter a.txt"
    );

    let err = ConfigError::MultipleExactMatches {
        filter: "a.txt".to_string(),
        count: 120,
    };
    assert_eq!(
        err.message(),
        "Only expected one but found 120 exact matches for filter a.txt"
    );

    let err = ConfigError::MatchFault {
        pattern: "p".to_string(),
        path: "q".to_string(),
        fault: "backtrack limit exceeded".to_string(),
    };
    assert_eq!(
        err.message(),
        "error matching pattern 'p' against path 'q' : backtrack limit exceeded"
    );
}
