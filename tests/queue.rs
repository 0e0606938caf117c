use cargo_nextest_knapsack::ci::{CiProvider, CiProviderWrapper, FallbackVars, StaticCiProvider};
use cargo_nextest_knapsack::client::{
    FetchAction, FetchStage, KnapsackClient, QueueReply, QueueRequest, ReplyBody, TestsFetch,
};
use cargo_nextest_knapsack::error::{KnapsackError, ProtocolError};
use cargo_nextest_knapsack::models::Test;

fn test_provider() -> CiProviderWrapper {
    CiProviderWrapper::new(
        CiProvider::Static(StaticCiProvider {
            node_total: Some(4),
            node_index: Some(0),
            build_id: Some("build_id".into()),
            commit_hash: Some("commit_hash".into()),
            branch: Some("branch".into()),
            fixed_queue_split: true,
        }),
        FallbackVars { node_total: None, node_index: None, build_id: None },
    )
}

fn test_client() -> KnapsackClient {
    KnapsackClient::new("http://localhost".to_string(), "test_api_key".to_string(), test_provider())
}

fn test(p: &str, b: &str, t: &str) -> Test {
    Test { package_name: p.to_string(), binary_name: b.to_string(), test_name: t.to_string() }
}

fn files_reply(paths: &[&str]) -> QueueReply {
    QueueReply {
        status: 200,
        text: "{}".to_string(),
        body: Some(ReplyBody {
            code: None,
            test_files: Some(paths.iter().map(|p| p.to_string()).collect()),
        }),
    }
}

fn connect_failed_reply() -> QueueReply {
    QueueReply {
        status: 200,
        text: "{\"code\":\"ATTEMPT_CONNECT_TO_QUEUE_FAILED\"}".to_string(),
        body: Some(ReplyBody { code: Some("ATTEMPT_CONNECT_TO_QUEUE_FAILED".to_string()), test_files: None }),
    }
}

fn assert_coordinates(request: &QueueRequest) {
    assert!(request.coordinates.fixed_queue_split);
    assert_eq!(request.coordinates.commit_hash, "commit_hash");
    assert_eq!(request.coordinates.branch, "branch");
    assert_eq!(request.coordinates.node_total, 4);
    assert_eq!(request.coordinates.node_index, 0);
    assert_eq!(request.coordinates.node_build_id, "build_id");
}

fn finish(action: Result<FetchAction, KnapsackError>) -> Vec<Test> {
    match action {
        Ok(FetchAction::Finish(tests)) => tests,
        Ok(FetchAction::ListTests) => panic!("unexpected request for the inventory"),
        Err(e) => panic!("unexpected error: {}", e.describe()),
    }
}

fn start(client: &mut KnapsackClient) -> (TestsFetch, QueueRequest) {
    match client.get_tests() {
        Ok(started) => started,
        Err(e) => panic!("unexpected error: {}", e.describe()),
    }
}

#[test]
fn should_initialize_queue() {
    let mut client = test_client();
    let (mut fetch, request) = start(&mut client);

    assert!(request.can_initialize_queue);
    assert!(request.attempt_connect_to_queue);
    assert!(request.test_files.is_none());
    assert_coordinates(&request);

    let tests = finish(fetch.on_reply(&files_reply(&["a|b|c"])));
    assert_eq!(tests, vec![test("a", "b", "c")]);
    assert!(client.is_initialized());
}

#[test]
fn should_handle_initialized_queue() {
    let mut client = test_client();
    let (mut fetch, request) = start(&mut client);
    assert!(request.can_initialize_queue);
    assert!(request.attempt_connect_to_queue);
    assert_coordinates(&request);

    match fetch.on_reply(&connect_failed_reply()) {
        Ok(FetchAction::ListTests) => {}
        _ => panic!("the sentinel must ask for the inventory"),
    }
    assert_eq!(fetch.stage(), FetchStage::AwaitingInventory);

    let cold = fetch.on_inventory(&vec![test("pn", "bn", "tn")]);
    assert!(cold.can_initialize_queue);
    assert!(!cold.attempt_connect_to_queue);
    assert_coordinates(&cold);
    assert_eq!(cold.test_files, Some(vec!["pn|bn|tn".to_string()]));

    let tests = finish(fetch.on_reply(&files_reply(&["pn|bn|tn"])));
    assert_eq!(tests, vec![test("pn", "bn", "tn")]);
    assert!(client.is_initialized());
}

#[test]
fn should_get_additional_tests() {
    let mut client = test_client();
    let (mut first, _) = start(&mut client);
    let _ = first.on_reply(&files_reply(&[]));

    let (mut fetch, request) = start(&mut client);
    assert!(!request.can_initialize_queue);
    assert!(!request.attempt_connect_to_queue);
    assert!(request.test_files.is_none());
    assert_coordinates(&request);

    let tests = finish(fetch.on_reply(&files_reply(&["pn|bn|tn"])));
    assert_eq!(tests, vec![test("pn", "bn", "tn")]);
    assert!(client.is_initialized());
}

#[test]
fn cold_start_returns_the_initializing_slice() {
    let mut client = test_client();
    assert!(!client.is_initialized());
    let (mut fetch, _) = start(&mut client);
    match fetch.on_reply(&connect_failed_reply()) {
        Ok(FetchAction::ListTests) => {}
        _ => panic!("the sentinel must ask for the inventory"),
    }
    let cold = fetch.on_inventory(&vec![test("proj", "bin", "t1")]);
    assert_eq!(cold.test_files, Some(vec!["proj|bin|t1".to_string()]));
    let tests = finish(fetch.on_reply(&files_reply(&["proj|bin|t1"])));
    assert_eq!(tests, vec![test("proj", "bin", "t1")]);
    assert!(client.is_initialized());
}

#[test]
fn sentinel_after_cold_start_is_not_followed() {
    let mut client = test_client();
    let (mut fetch, _) = start(&mut client);
    let _ = fetch.on_reply(&connect_failed_reply());
    let _ = fetch.on_inventory(&vec![test("p", "b", "t")]);
    match fetch.on_reply(&connect_failed_reply()) {
        Err(KnapsackError::Protocol(ProtocolError::UnexpectedBody(_))) => {}
        _ => panic!("a second cold start must not happen"),
    }
    assert_eq!(fetch.stage(), FetchStage::Done);
}

#[test]
fn connect_success_skips_cold_start() {
    let mut client = test_client();
    let (mut fetch, _) = start(&mut client);
    let tests = finish(fetch.on_reply(&files_reply(&["x|y|z", "x|y|w"])));
    assert_eq!(tests, vec![test("x", "y", "z"), test("x", "y", "w")]);
    assert_eq!(fetch.stage(), FetchStage::Done);
}

#[test]
fn later_calls_poll_even_after_a_failed_first_call() {
    let mut client = test_client();
    let (mut fetch, _) = start(&mut client);
    let refused = QueueReply { status: 500, text: "boom".to_string(), body: None };
    match fetch.on_reply(&refused) {
        Err(KnapsackError::Protocol(ProtocolError::Status(500, text))) => assert_eq!(text, "boom"),
        _ => panic!("a 500 must be a protocol error"),
    }
    let (_, request) = start(&mut client);
    assert!(!request.can_initialize_queue);
    assert!(!request.attempt_connect_to_queue);
}

#[test]
fn empty_batch_ends_the_queue() {
    let mut client = test_client();
    let (_, _) = start(&mut client);
    let (mut fetch, _) = start(&mut client);
    let tests = finish(fetch.on_reply(&files_reply(&[])));
    assert!(tests.is_empty());
}

#[test]
fn malformed_path_is_a_parse_error() {
    let mut client = test_client();
    let (mut fetch, _) = start(&mut client);
    match fetch.on_reply(&files_reply(&["a|b|c", "a|b", "x"])) {
        Err(KnapsackError::Parse(token)) => assert_eq!(token, "a|b"),
        _ => panic!("expected a parse error"),
    }
}

#[test]
fn body_that_is_not_json_is_a_protocol_error() {
    let mut client = test_client();
    let (mut fetch, _) = start(&mut client);
    let reply = QueueReply { status: 200, text: "<html>".to_string(), body: None };
    match fetch.on_reply(&reply) {
        Err(KnapsackError::Protocol(ProtocolError::UnexpectedBody(text))) => assert_eq!(text, "<html>"),
        _ => panic!("expected a protocol error"),
    }
}

#[test]
fn other_code_on_connect_reads_the_files() {
    let mut client = test_client();
    let (mut fetch, _) = start(&mut client);
    let reply = QueueReply {
        status: 200,
        text: "{}".to_string(),
        body: Some(ReplyBody { code: Some("SOMETHING_ELSE".to_string()), test_files: None }),
    };
    match fetch.on_reply(&reply) {
        Err(KnapsackError::Protocol(ProtocolError::UnexpectedBody(_))) => {}
        _ => panic!("expected a protocol error"),
    }
}

#[test]
fn missing_coordinate_fails_before_any_request() {
    let wrapper = CiProviderWrapper::new(
        CiProvider::Static(StaticCiProvider {
            node_total: Some(2),
            node_index: Some(1),
            build_id: None,
            commit_hash: Some("c".into()),
            branch: None,
            fixed_queue_split: false,
        }),
        FallbackVars { node_total: None, node_index: None, build_id: None },
    );
    let mut client = KnapsackClient::new("http://h".to_string(), "k".to_string(), wrapper);
    match client.get_tests() {
        Err(e) => assert_eq!(e.describe(), "missing CI coordinate: branch"),
        Ok(_) => panic!("expected a config error"),
    }
    assert!(client.is_initialized());
}

#[test]
fn urls_are_built_from_the_endpoint() {
    let client = test_client();
    assert_eq!(client.queue_url(), "http://localhost/v1/queues/queue");
    assert_eq!(client.upload_url(), "http://localhost/v1/build_subsets");
}
