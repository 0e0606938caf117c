//! The queue protocol: which request to send, and what each answer means.
use vstd::prelude::*;
use vstd::string::*;

use crate::ci::{CiProviderWrapper, Coordinates};
use crate::error::{KnapsackError, ProtocolError};
use crate::models::{
    decode_files, decoded_views, decodes_to, lemma_bad_path_no_views, lemma_decodes_to_views,
    reports_first_bad_path, views, Test, TestResult, TestView,
};

verus! {

/// Sent as the client name header.
pub const CLIENT_NAME: &'static str = "cargo-nextest-knapsack";

/// The code with which the service says that no node has filled the queue yet.
pub open spec fn connect_failed_code() -> Seq<char> {
    "ATTEMPT_CONNECT_TO_QUEUE_FAILED"@
}

/// A 2xx status.
pub open spec fn is_success_status(status: u16) -> bool {
    200 <= status && status < 300
}

pub fn is_success(status: u16) -> (r: bool)
    ensures
        r == is_success_status(status),
{
    200 <= status && status < 300
}

/// Whether this process has already asked the queue for tests.
#[derive(Clone, Copy, Debug, PartialEq, Eq, Structural)]
pub enum QueueClientState {
    NotStarted,
    Started,
}

/// The body of a request to the queue endpoint.
pub struct QueueRequest {
    pub can_initialize_queue: bool,
    pub attempt_connect_to_queue: bool,
    pub coordinates: Coordinates,
    /// The wire tokens of the whole local inventory; only when filling the queue.
    pub test_files: Option<Vec<String>>,
}

/// The fields of a response body that the protocol reads.
pub struct ReplyBody {
    /// `code`, where it is a string.
    pub code: Option<String>,
    /// The `path` of each entry of `test_files`, where that list is well formed.
    pub test_files: Option<Vec<String>>,
}

/// A response of the queue endpoint.
pub struct QueueReply {
    pub status: u16,
    /// The raw body.
    pub text: String,
    /// The body read as JSON; `None` where it is not JSON.
    pub body: Option<ReplyBody>,
}

impl QueueReply {
    pub open spec fn is_connect_failed(&self) -> bool {
        &&& self.body is Some
        &&& self.body->Some_0.code is Some
        &&& self.body->Some_0.code->Some_0@ == connect_failed_code()
    }

    pub open spec fn files(&self) -> Option<Seq<String>> {
        match self.body {
            Some(b) => match b.test_files {
                Some(v) => Some(v@),
                None => None,
            },
            None => None,
        }
    }
}

/// Where one `get_tests` exchange stands.
#[derive(Clone, Copy, Debug, PartialEq, Eq, Structural)]
pub enum FetchStage {
    /// The first request of the process, which tries to join an existing queue.
    Connecting,
    /// The queue is empty: the local inventory is needed to fill it.
    AwaitingInventory,
    /// The request that fills the queue with the local inventory.
    ColdStarting,
    /// A later request for the next batch.
    Polling,
    Done,
}

impl FetchStage {
    pub open spec fn awaits_reply(self) -> bool {
        self == FetchStage::Connecting || self == FetchStage::ColdStarting || self
            == FetchStage::Polling
    }
}

/// What an answer of the queue endpoint means at a given stage.
pub enum ReplyOutcome {
    /// The queue is not filled yet: the local inventory is needed.
    NeedInventory,
    /// The batch to hand to the caller.
    Batch(Seq<TestView>),
    Failed,
}

pub open spec fn reply_outcome(stage: FetchStage, reply: QueueReply) -> ReplyOutcome {
    if !is_success_status(reply.status) {
        ReplyOutcome::Failed
    } else if stage == FetchStage::Connecting && reply.is_connect_failed() {
        ReplyOutcome::NeedInventory
    } else {
        match reply.files() {
            None => ReplyOutcome::Failed,
            Some(files) => match decoded_views(files) {
                Some(tests) => ReplyOutcome::Batch(tests),
                None => ReplyOutcome::Failed,
            },
        }
    }
}

/// The wire token of each test of the inventory, in order.
pub open spec fn cold_start_files(inventory: Seq<Test>) -> Seq<Seq<char>> {
    inventory.map_values(|t: Test| t@.wire())
}

/// (`can_initialize_queue`, `attempt_connect_to_queue`) of the first request
/// of a `get_tests` call made in `state`.
pub open spec fn request_flags(state: QueueClientState) -> (bool, bool) {
    match state {
        QueueClientState::NotStarted => (true, true),
        QueueClientState::Started => (false, false),
    }
}

/// The first reply carries the sentinel: it hands the caller no tests, the
/// inventory is asked for once, the request that follows carries all of it,
/// and the batch of the answer to that request is the one the caller gets;
/// that answer never asks for the inventory again.
pub proof fn lemma_connect_failed_cold_start(connect: QueueReply, cold: QueueReply)
    requires
        is_success_status(connect.status),
        connect.is_connect_failed(),
    ensures
        reply_outcome(FetchStage::Connecting, connect) == ReplyOutcome::NeedInventory,
        !(reply_outcome(FetchStage::ColdStarting, cold) is NeedInventory),
        is_success_status(cold.status) && cold.files() is Some && decoded_views(cold.files()->Some_0)
            is Some ==> reply_outcome(FetchStage::ColdStarting, cold) == ReplyOutcome::Batch(
            decoded_views(cold.files()->Some_0)->Some_0,
        ),
{
}

/// A first reply without the sentinel is the batch itself: no inventory is
/// asked for.
pub proof fn lemma_connect_success_is_batch(connect: QueueReply)
    requires
        is_success_status(connect.status),
        !connect.is_connect_failed(),
        connect.files() is Some,
        decoded_views(connect.files()->Some_0) is Some,
    ensures
        reply_outcome(FetchStage::Connecting, connect) == ReplyOutcome::Batch(
            decoded_views(connect.files()->Some_0)->Some_0,
        ),
{
}

/// Once a `get_tests` call has been made, whatever its outcome, every later
/// call neither initializes nor tries to connect to the queue.
pub proof fn lemma_later_calls_poll(state: QueueClientState)
    ensures
        request_flags(QueueClientState::Started) == (false, false),
        request_flags(state) == (true, true) <==> state == QueueClientState::NotStarted,
{
}

/// What the caller must do next in a `get_tests` exchange.
pub enum FetchAction {
    /// Enumerate the local tests and hand them to `on_inventory`.
    ListTests,
    /// The batch to run; empty when the queue is exhausted.
    Finish(Vec<Test>),
}

/// One `get_tests` exchange in progress.
pub struct TestsFetch {
    pub stage: FetchStage,
    pub coordinates: Coordinates,
}

fn copy_coordinates(c: &Coordinates) -> (r: Coordinates)
    ensures
        r == *c,
{
    Coordinates {
        commit_hash: c.commit_hash.clone(),
        branch: c.branch.clone(),
        node_total: c.node_total,
        node_index: c.node_index,
        node_build_id: c.node_build_id.clone(),
        fixed_queue_split: c.fixed_queue_split,
    }
}

/// The wire token of each test, in order.
pub fn encode_tests(tests: &Vec<Test>) -> (r: Vec<String>)
    ensures
        r@.len() == tests@.len(),
        forall|i: int| 0 <= i < tests@.len() ==> (#[trigger] r@[i])@ == tests@[i]@.wire(),
{
    let mut out: Vec<String> = Vec::new();
    let mut i: usize = 0;
    while i < tests.len()
        invariant
            i <= tests@.len(),
            out@.len() == i,
            forall|j: int| 0 <= j < i ==> (#[trigger] out@[j])@ == tests@[j]@.wire(),
        decreases tests@.len() - i,
    {
        out.push(tests[i].to_knapsack_file());
        i = i + 1;
    }
    out
}

impl TestsFetch {
    pub fn stage(&self) -> (r: FetchStage)
        ensures
            r == self.stage,
    {
        self.stage
    }

    /// Reads an answer of the queue endpoint to the request in flight.
    pub fn on_reply(&mut self, reply: &QueueReply) -> (r: Result<FetchAction, KnapsackError>)
        requires
            old(self).stage.awaits_reply(),
        ensures
            final(self).coordinates == old(self).coordinates,
            match reply_outcome(old(self).stage, *reply) {
                ReplyOutcome::NeedInventory => final(self).stage == FetchStage::AwaitingInventory
                    && r matches Ok(FetchAction::ListTests),
                ReplyOutcome::Batch(tests) => final(self).stage == FetchStage::Done && (r matches Ok(
                    FetchAction::Finish(v),
                ) && views(v@) == tests),
                ReplyOutcome::Failed => final(self).stage == FetchStage::Done && r is Err,
            },
            !is_success_status(reply.status) ==> final(self).stage == FetchStage::Done && r == Err::<
                FetchAction,
                KnapsackError,
            >(KnapsackError::Protocol(ProtocolError::Status(reply.status, reply.text))),
            is_success_status(reply.status) && old(self).stage == FetchStage::Connecting
                && reply.is_connect_failed() ==> final(self).stage == FetchStage::AwaitingInventory
                && r matches Ok(FetchAction::ListTests),
            is_success_status(reply.status) && !(old(self).stage == FetchStage::Connecting
                && reply.is_connect_failed()) ==> final(self).stage == FetchStage::Done && match reply.files() {
                None => r == Err::<FetchAction, KnapsackError>(
                    KnapsackError::Protocol(ProtocolError::UnexpectedBody(reply.text)),
                ),
                Some(files) => match r {
                    Ok(FetchAction::Finish(tests)) => decodes_to(files, tests@),
                    Ok(FetchAction::ListTests) => false,
                    Err(e) => reports_first_bad_path(files, e),
                },
            },
    {
        if !is_success(reply.status) {
            self.stage = FetchStage::Done;
            return Err(
                KnapsackError::Protocol(ProtocolError::Status(reply.status, reply.text.clone())),
            );
        }
        let body = match &reply.body {
            Some(b) => b,
            None => {
                self.stage = FetchStage::Done;
                return Err(
                    KnapsackError::Protocol(ProtocolError::UnexpectedBody(reply.text.clone())),
                );
            },
        };
        if self.stage == FetchStage::Connecting {
            if let Some(code) = &body.code {
                if *code == String::from_str("ATTEMPT_CONNECT_TO_QUEUE_FAILED") {
                    self.stage = FetchStage::AwaitingInventory;
                    return Ok(FetchAction::ListTests);
                }
            }
        }
        self.stage = FetchStage::Done;
        match &body.test_files {
            None => Err(KnapsackError::Protocol(ProtocolError::UnexpectedBody(reply.text.clone()))),
            Some(files) => match decode_files(files) {
                Ok(tests) => {
                    proof {
                        lemma_decodes_to_views(files@, tests@);
                    }
                    Ok(FetchAction::Finish(tests))
                },
                Err(e) => {
                    proof {
                        lemma_bad_path_no_views(files@, e);
                    }
                    Err(e)
                },
            },
        }
    }

    /// The request that fills the queue with the whole local inventory.
    pub fn on_inventory(&mut self, inventory: &Vec<Test>) -> (r: QueueRequest)
        requires
            old(self).stage == FetchStage::AwaitingInventory,
        ensures
            final(self).stage == FetchStage::ColdStarting,
            final(self).coordinates == old(self).coordinates,
            r.can_initialize_queue,
            !r.attempt_connect_to_queue,
            r.coordinates == old(self).coordinates,
            r.test_files is Some,
            r.test_files->Some_0@.map_values(|f: String| f@) == cold_start_files(inventory@),
    {
        self.stage = FetchStage::ColdStarting;
        let files = encode_tests(inventory);
        proof {
            assert(files@.map_values(|f: String| f@) =~= cold_start_files(inventory@));
        }
        QueueRequest {
            can_initialize_queue: true,
            attempt_connect_to_queue: false,
            coordinates: copy_coordinates(&self.coordinates),
            test_files: Some(files),
        }
    }
}

/// Client of the queue service for one CI node.
pub struct KnapsackClient {
    pub state: QueueClientState,
    pub endpoint: String,
    pub api_key: String,
    pub ci_provider_wrapper: CiProviderWrapper,
}

impl KnapsackClient {
    pub fn new(endpoint: String, api_key: String, ci_provider_wrapper: CiProviderWrapper) -> (r:
        Self)
        ensures
            r.state == QueueClientState::NotStarted,
            r.endpoint == endpoint,
            r.api_key == api_key,
            r.ci_provider_wrapper == ci_provider_wrapper,
    {
        KnapsackClient { state: QueueClientState::NotStarted, endpoint, api_key, ci_provider_wrapper }
    }

    pub fn is_initialized(&self) -> (r: bool)
        ensures
            r == (self.state == QueueClientState::Started),
    {
        self.state == QueueClientState::Started
    }

    /// `{endpoint}/v1/queues/queue`
    pub fn queue_url(&self) -> (r: String)
        ensures
            r@ == self.endpoint@ + "/v1/queues/queue"@,
    {
        let mut s = self.endpoint.clone();
        s.append("/v1/queues/queue");
        s
    }

    /// `{endpoint}/v1/build_subsets`
    pub fn upload_url(&self) -> (r: String)
        ensures
            r@ == self.endpoint@ + "/v1/build_subsets"@,
    {
        let mut s = self.endpoint.clone();
        s.append("/v1/build_subsets");
        s
    }

    /// Starts asking for the next batch of tests: the first request of the
    /// process tries to join an existing queue, every later one polls it.
    pub fn get_tests(&mut self) -> (r: Result<(TestsFetch, QueueRequest), KnapsackError>)
        ensures
            final(self).state == QueueClientState::Started,
            final(self).endpoint == old(self).endpoint,
            final(self).api_key == old(self).api_key,
            final(self).ci_provider_wrapper == old(self).ci_provider_wrapper,
            match r {
                Ok((fetch, request)) => {
                    &&& old(self).ci_provider_wrapper.spec_coordinates_err() is None
                    &&& old(self).ci_provider_wrapper.spec_coordinates_ok(request.coordinates)
                    &&& fetch.coordinates == request.coordinates
                    &&& request.test_files is None
                    &&& (request.can_initialize_queue, request.attempt_connect_to_queue)
                        == request_flags(old(self).state)
                    &&& old(self).state == QueueClientState::NotStarted ==> {
                        &&& request.can_initialize_queue
                        &&& request.attempt_connect_to_queue
                        &&& fetch.stage == FetchStage::Connecting
                    }
                    &&& old(self).state == QueueClientState::Started ==> {
                        &&& !request.can_initialize_queue
                        &&& !request.attempt_connect_to_queue
                        &&& fetch.stage == FetchStage::Polling
                    }
                },
                Err(e) => old(self).ci_provider_wrapper.spec_coordinates_err() == Some(e),
            },
    {
        let first = self.state == QueueClientState::NotStarted;
        self.state = QueueClientState::Started;
        let coordinates = match self.ci_provider_wrapper.coordinates() {
            Ok(c) => c,
            Err(e) => return Err(e),
        };
        let request = QueueRequest {
            can_initialize_queue: first,
            attempt_connect_to_queue: first,
            coordinates: copy_coordinates(&coordinates),
            test_files: None,
        };
        let stage = if first {
            FetchStage::Connecting
        } else {
            FetchStage::Polling
        };
        Ok((TestsFetch { stage, coordinates }, request))
    }
}

/// One entry of the results upload.
pub struct UploadedFile {
    pub path: String,
    /// Bit pattern of the duration in seconds, as in `TestResult`.
    pub time_execution_bits: u64,
}

/// The body of a request to the results endpoint.
pub struct UploadRequest {
    pub commit_hash: String,
    pub branch: String,
    pub node_total: usize,
    pub node_index: usize,
    pub test_files: Vec<UploadedFile>,
}

/// (wire token, duration) of each result, in order.
pub open spec fn upload_entries(results: Seq<TestResult>) -> Seq<(Seq<char>, u64)> {
    results.map_values(|r: TestResult| (r.test@.wire(), r.exec_time_bits))
}

/// (path, duration) of each upload entry, in order.
pub open spec fn entries_of(files: Seq<UploadedFile>) -> Seq<(Seq<char>, u64)> {
    files.map_values(|f: UploadedFile| (f.path@, f.time_execution_bits))
}

/// The results of batches run one after the other are uploaded in that
/// order: no result is dropped, repeated or moved.
pub proof fn lemma_upload_entries_concat(a: Seq<TestResult>, b: Seq<TestResult>)
    ensures
        upload_entries(a + b) == upload_entries(a) + upload_entries(b),
{
    assert(upload_entries(a + b) =~= upload_entries(a) + upload_entries(b));
}

impl KnapsackClient {
    /// The results upload for this node: every result, in order.
    pub fn upload_test_results(&self, test_results: &Vec<TestResult>) -> (r: Result<
        UploadRequest,
        KnapsackError,
    >)
        ensures
            match r {
                Ok(u) => {
                    &&& self.ci_provider_wrapper.spec_coordinates_err() is None
                    &&& self.ci_provider_wrapper.spec_node_total() == Ok::<usize, KnapsackError>(
                        u.node_total,
                    )
                    &&& self.ci_provider_wrapper.spec_node_index() == Ok::<usize, KnapsackError>(
                        u.node_index,
                    )
                    &&& self.ci_provider_wrapper.spec_branch() == Ok::<String, KnapsackError>(
                        u.branch,
                    )
                    &&& self.ci_provider_wrapper.spec_commit_hash() == Ok::<String, KnapsackError>(
                        u.commit_hash,
                    )
                    &&& entries_of(u.test_files@) == upload_entries(test_results@)
                },
                Err(e) => self.ci_provider_wrapper.spec_coordinates_err() == Some(e),
            },
    {
        let coordinates = match self.ci_provider_wrapper.coordinates() {
            Ok(c) => c,
            Err(e) => return Err(e),
        };
        let mut files: Vec<UploadedFile> = Vec::new();
        let mut i: usize = 0;
        while i < test_results.len()
            invariant
                i <= test_results@.len(),
                entries_of(files@) == upload_entries(test_results@.take(i as int)),
            decreases test_results@.len() - i,
        {
            let r = &test_results[i];
            let f = UploadedFile { path: r.test.to_knapsack_file(), time_execution_bits: r.exec_time_bits };
            proof {
                assert(entries_of(files@.push(f)) =~= entries_of(files@).push(
                    (f.path@, f.time_execution_bits),
                ));
                assert(test_results@.take(i + 1) =~= test_results@.take(i as int).push(*r));
                assert(upload_entries(test_results@.take(i + 1)) =~= upload_entries(
                    test_results@.take(i as int),
                ).push((r.test@.wire(), r.exec_time_bits)));
            }
            files.push(f);
            i = i + 1;
        }
        proof {
            assert(test_results@.take(i as int) =~= test_results@);
        }
        Ok(
            UploadRequest {
                commit_hash: coordinates.commit_hash,
                branch: coordinates.branch,
                node_total: coordinates.node_total,
                node_index: coordinates.node_index,
                test_files: files,
            },
        )
    }

    /// Any 2xx answer accepts the upload; its body is not read.
    pub fn check_upload_reply(status: u16, text: &String) -> (r: Result<(), KnapsackError>)
        ensures
            is_success_status(status) ==> r is Ok,
            !is_success_status(status) ==> r == Err::<(), KnapsackError>(
                KnapsackError::Protocol(ProtocolError::Status(status, *text)),
            ),
    {
        if is_success(status) {
            Ok(())
        } else {
            Err(KnapsackError::Protocol(ProtocolError::Status(status, text.clone())))
        }
    }
}

} // verus!
