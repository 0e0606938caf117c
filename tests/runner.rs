use cargo_nextest_knapsack::client::{KnapsackClient, UploadRequest};
use cargo_nextest_knapsack::ci::{CiProvider, CiProviderWrapper, FallbackVars, StaticCiProvider};
use cargo_nextest_knapsack::error::{KnapsackError, ProtocolError};
use cargo_nextest_knapsack::models::{Test, TestResult};
use cargo_nextest_knapsack::run_loop::{RunAction, RunLoop};
use cargo_nextest_knapsack::runner::{
    collect_results, inventory_from_suites, runner_filter_args, RunnerEvent, SuiteListing,
};

fn test(p: &str, b: &str, t: &str) -> Test {
    Test { package_name: p.into(), binary_name: b.into(), test_name: t.into() }
}

fn suite(p: &str, b: &str, names: &[&str]) -> SuiteListing {
    SuiteListing {
        package_name: p.into(),
        binary_name: b.into(),
        test_names: names.iter().map(|n| n.to_string()).collect(),
    }
}

fn event(kind: &str, ev: &str, name: &str, secs: f64) -> RunnerEvent {
    RunnerEvent { kind: kind.into(), event: ev.into(), name: name.into(), exec_time_bits: secs.to_bits() }
}

fn client() -> KnapsackClient {
    let wrapper = CiProviderWrapper::new(
        CiProvider::Static(StaticCiProvider {
            node_total: Some(2),
            node_index: Some(1),
            build_id: None,
            commit_hash: Some("c0ffee".into()),
            branch: Some("main".into()),
            fixed_queue_split: true,
        }),
        FallbackVars { node_total: None, node_index: None, build_id: None },
    );
    KnapsackClient::new("http://h".into(), "k".into(), wrapper)
}

/// The listing that the runner gives for the sample workspace (a root
/// package `project` and a member `some_crate`), in its order.
#[test]
fn test_finder_test_find_tests_in_directory() {
    let suites = vec![
        suite("project", "tests", &["root_external_test"]),
        suite("project", "project", &["dir::file::tests::test_in_subdirectory", "tests::root_inline_test"]),
        suite("some_crate", "tests", &["crate_external_test"]),
        suite("some_crate", "some_crate", &["tests::crate_inline_test"]),
    ];
    let tests = inventory_from_suites(&suites);
    assert_eq!(
        tests,
        vec![
            Test {
                package_name: "project".into(),
                binary_name: "tests".into(),
                test_name: "root_external_test".into()
            },
            Test {
                package_name: "project".into(),
                binary_name: "project".into(),
                test_name: "dir::file::tests::test_in_subdirectory".into()
            },
            Test {
                package_name: "project".into(),
                binary_name: "project".into(),
                test_name: "tests::root_inline_test".into()
            },
            Test {
                package_name: "some_crate".into(),
                binary_name: "tests".into(),
                test_name: "crate_external_test".into()
            },
            Test {
                package_name: "some_crate".into(),
                binary_name: "some_crate".into(),
                test_name: "tests::crate_inline_test".into()
            }
        ]
    )
}

#[test]
fn empty_listing_gives_no_tests() {
    assert!(inventory_from_suites(&vec![]).is_empty());
    assert!(inventory_from_suites(&vec![suite("p", "b", &[])]).is_empty());
}

#[test]
fn filter_args_select_each_test() {
    let args = runner_filter_args(&vec![test("project", "tests", "a"), test("other", "bin", "b::c")]);
    assert_eq!(
        args,
        vec![
            "-E".to_string(),
            "package(project) & test(=a)".to_string(),
            "-E".to_string(),
            "package(other) & test(=b::c)".to_string(),
        ]
    );
}

#[test]
fn only_passing_tests_give_results() {
    let tests = vec![test("project", "tests", "a"), test("project", "project", "m::b")];
    let events = vec![
        event("suite", "started", "", 0.0),
        event("test", "ok", "project::project$m::b", 0.25),
        event("test", "failed", "project::tests$a", 1.5),
        event("test", "ok", "project::tests$a", 0.5),
    ];
    let results = collect_results(&tests, &events).unwrap();
    assert_eq!(
        results,
        vec![
            TestResult { test: test("project", "project", "m::b"), exec_time_bits: 0.25f64.to_bits() },
            TestResult { test: test("project", "tests", "a"), exec_time_bits: 0.5f64.to_bits() },
        ]
    );
}

#[test]
fn unknown_passing_test_is_an_error() {
    let tests = vec![test("project", "tests", "a")];
    let events = vec![event("test", "ok", "project::tests$zzz", 0.1)];
    match collect_results(&tests, &events) {
        Err(KnapsackError::UnknownTest(name)) => assert_eq!(name, "project::tests$zzz"),
        _ => panic!("expected an unknown test"),
    }
}

#[test]
fn run_loop_stops_on_empty_batch_without_executing() {
    let mut run = RunLoop::new();
    match run.on_batch(vec![]) {
        RunAction::Upload => {}
        RunAction::Execute(_) => panic!("an empty batch must not be executed"),
    }
    assert!(run.is_finished());
    assert!(run.results.is_empty());
}

#[test]
fn upload_keeps_every_result_in_order() {
    let mut run = RunLoop::new();
    let first = vec![test("p", "b", "t1"), test("p", "b", "t2")];
    match run.on_batch(first.clone()) {
        RunAction::Execute(batch) => assert_eq!(batch, first),
        RunAction::Upload => panic!("a batch must be executed"),
    }
    run.on_results(vec![
        TestResult { test: test("p", "b", "t1"), exec_time_bits: 1.0f64.to_bits() },
        TestResult { test: test("p", "b", "t2"), exec_time_bits: 2.0f64.to_bits() },
    ]);
    let _ = run.on_batch(vec![test("q", "c", "t3")]);
    run.on_results(vec![TestResult { test: test("q", "c", "t3"), exec_time_bits: 3.0f64.to_bits() }]);
    match run.on_batch(vec![]) {
        RunAction::Upload => {}
        RunAction::Execute(_) => panic!("an empty batch ends the run"),
    }
    let upload: UploadRequest = client().upload_test_results(&run.results).unwrap();
    assert_eq!(upload.commit_hash, "c0ffee");
    assert_eq!(upload.branch, "main");
    assert_eq!(upload.node_total, 2);
    assert_eq!(upload.node_index, 1);
    let entries: Vec<(String, f64)> = upload
        .test_files
        .iter()
        .map(|f| (f.path.clone(), f64::from_bits(f.time_execution_bits)))
        .collect();
    assert_eq!(
        entries,
        vec![
            ("p|b|t1".to_string(), 1.0),
            ("p|b|t2".to_string(), 2.0),
            ("q|c|t3".to_string(), 3.0),
        ]
    );
}

#[test]
fn upload_reply_needs_success_status() {
    assert_eq!(KnapsackClient::check_upload_reply(204, &"".to_string()), Ok(()));
    assert_eq!(
        KnapsackClient::check_upload_reply(422, &"bad".to_string()),
        Err(KnapsackError::Protocol(ProtocolError::Status(422, "bad".to_string())))
    );
}
