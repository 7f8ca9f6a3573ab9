//! The response store: how it is reached, what is asked of it, and which of
//! its failures are worth another attempt.
use tonic::transport::Endpoint;
use vstd::prelude::*;

use crate::config::{read_text, read_u64, str_view, text_setting, u64_setting};
use crate::message::StoredResponse;

verus! {

/// The seconds that a stored response is kept, where nothing else is set.
pub const DEFAULT_TTL_SECONDS: u64 = 86_400;

/// The status codes of a remote call.
#[derive(Clone, Copy, Debug, PartialEq, Eq, Structural)]
pub enum Code {
    Success,
    Cancelled,
    Unknown,
    InvalidArgument,
    DeadlineExceeded,
    NotFound,
    AlreadyExists,
    PermissionDenied,
    ResourceExhausted,
    FailedPrecondition,
    Aborted,
    OutOfRange,
    Unimplemented,
    Internal,
    Unavailable,
    DataLoss,
    Unauthenticated,
}

/// The status with which a remote call ended.
#[derive(Debug, PartialEq, Eq)]
pub struct Status {
    pub code: Code,
    pub message: String,
}

/// A failure of the store's client.
#[derive(Debug, PartialEq, Eq)]
pub enum ClientError {
    /// The store could not be reached.
    Transport(String),
    /// The store answered with a status.
    Rpc(Status),
    /// A record could not be written or read.
    Serialization(String),
    /// The store has no such record.
    NotFound(String),
    /// The client is not set up as it has to be.
    Configuration(String),
}

/// One of the causes that led to a failure.
#[derive(Debug, PartialEq, Eq)]
pub enum Cause {
    /// A failure of the store's client.
    Client(ClientError),
    /// A status with which a remote call ended.
    Status(Status),
    /// Anything else.
    Other(String),
}

/// A failure of a call to the store.
#[derive(Debug, PartialEq, Eq)]
pub enum StoreError {
    /// The failure is one of the store's client.
    Client(ClientError),
    /// The failure is something else, with these causes, outermost first.
    Other(Vec<Cause>),
}

/// Whether a call that ended with this code may succeed when it is repeated.
pub open spec fn code_is_retryable(code: Code) -> bool {
    code == Code::Unavailable || code == Code::DeadlineExceeded || code == Code::ResourceExhausted
        || code == Code::Aborted || code == Code::Internal || code == Code::Unknown
}

/// Whether a call that failed like this may succeed when it is repeated.
pub open spec fn client_error_is_retryable(err: ClientError) -> bool {
    match err {
        ClientError::Transport(_) => true,
        ClientError::Rpc(status) => code_is_retryable(status.code),
        _ => false,
    }
}

/// What the first cause that is a client's failure or a status says of trying
/// again; without one, nothing is worth it.
pub open spec fn causes_are_retryable(causes: Seq<Cause>) -> bool
    decreases causes.len(),
{
    if causes.len() == 0 {
        false
    } else {
        match causes[0] {
            Cause::Client(err) => client_error_is_retryable(err),
            Cause::Status(status) => code_is_retryable(status.code),
            Cause::Other(_) => causes_are_retryable(causes.skip(1)),
        }
    }
}

/// Whether a call that failed like this may succeed when it is repeated.
pub open spec fn store_error_is_retryable(err: StoreError) -> bool {
    match err {
        StoreError::Client(err) => client_error_is_retryable(err),
        StoreError::Other(causes) => causes_are_retryable(causes@),
    }
}

/// Whether a call that ended with this code may succeed when it is repeated.
pub fn is_retryable_rpc_status(code: Code) -> (retryable: bool)
    ensures
        retryable == code_is_retryable(code),
{
    match code {
        Code::Unavailable
        | Code::DeadlineExceeded
        | Code::ResourceExhausted
        | Code::Aborted
        | Code::Internal
        | Code::Unknown => true,
        _ => false,
    }
}

/// Whether a call that failed like this may succeed when it is repeated.
pub fn is_retryable_client_error(err: &ClientError) -> (retryable: bool)
    ensures
        retryable == client_error_is_retryable(*err),
{
    match err {
        ClientError::Transport(_) => true,
        ClientError::Rpc(status) => is_retryable_rpc_status(status.code),
        ClientError::Serialization(_)
        | ClientError::NotFound(_)
        | ClientError::Configuration(_) => false,
    }
}

/// Whether a call that failed like this may succeed when it is repeated.
pub fn is_retryable_store_error(err: &StoreError) -> (retryable: bool)
    ensures
        retryable == store_error_is_retryable(*err),
{
    match err {
        StoreError::Client(err) => is_retryable_client_error(err),
        StoreError::Other(causes) => {
            let mut at: usize = 0;
            assert(causes@.skip(0) =~= causes@);
            while at < causes.len()
                invariant
                    at <= causes.len(),
                    causes_are_retryable(causes@) == causes_are_retryable(causes@.skip(at as int)),
                    *err == StoreError::Other(*causes),
                decreases causes.len() - at,
            {
                assert(causes@.skip(at as int)[0] == causes@[at as int]);
                assert(causes@.skip(at as int).skip(1) =~= causes@.skip(at + 1));
                match &causes[at] {
                    Cause::Client(err) => {
                        return is_retryable_client_error(err);
                    },
                    Cause::Status(status) => {
                        return is_retryable_rpc_status(status.code);
                    },
                    Cause::Other(_) => {},
                }
                at = at + 1;
            }
            false
        },
    }
}

/// A failure of the client as a failure of a call.
pub fn map_client_error(err: ClientError) -> (mapped: StoreError)
    ensures
        mapped == StoreError::Client(err),
{
    StoreError::Client(err)
}

/// A set of jobs that a consumer asks for.
#[derive(Debug, PartialEq, Eq)]
pub struct ClaimBackgroundJobsRequest {
    pub consumer_group: String,
    pub consumer_name: String,
    pub count: u32,
    pub block_ms: u32,
    pub autoclaim_min_idle_ms: u32,
}

/// A job that was claimed.
#[derive(Debug, PartialEq, Eq)]
pub struct BackgroundJob {
    pub stream_id: String,
    pub response_id: String,
    pub idle_ms: Option<u64>,
    pub autoclaimed: bool,
}

/// A job that was claimed before its response could be read.
#[derive(Debug, PartialEq, Eq)]
pub struct PendingBackgroundJob {
    pub stream_id: String,
    pub response_id: String,
}

/// What a claim gave.
#[derive(Debug, PartialEq, Eq)]
pub struct ClaimBackgroundJobsResult {
    pub jobs: Vec<BackgroundJob>,
    pub pending_jobs: Vec<PendingBackgroundJob>,
}

/// A call to the store's client.
#[derive(Debug, PartialEq, Eq)]
pub enum StoreRequest {
    /// Write a response, to be kept for a time.
    StoreResponse { response_id: String, response: StoredResponse, ttl_seconds: Option<u64> },
    /// Read a response. The second value is the client's switch, which the
    /// worker leaves off.
    GetResponse { response_id: String, switch: bool },
    /// Claim jobs.
    ClaimBackgroundJobs(ClaimBackgroundJobsRequest),
    /// Report a job as done.
    AcknowledgeBackgroundJob { consumer_group: String, stream_id: String },
    /// Make sure that a consumer group exists.
    EnsureConsumerGroup { consumer_group: String, start_id: String },
}

/// A place to connect to.
#[verifier::external_type_specification]
#[verifier::external_body]
pub struct ExEndpoint(tonic::transport::Endpoint);

/// A failure of the transport.
#[verifier::external_type_specification]
#[verifier::external_body]
pub struct ExTransportError(tonic::transport::Error);

/// The endpoint that `Endpoint::from_shared` makes of a text, if it accepts it.
pub uninterp spec fn parsed_endpoint(endpoint: Seq<char>) -> Option<Endpoint>;

/// Makes an endpoint of a text with `Endpoint::from_shared`.
///
/// Whether there is one, and which, depends on the text alone. Which texts are
/// accepted is left to that function, and so is what a refusal says.
#[verifier::external_body]
pub(crate) fn endpoint_from_shared(endpoint: String) -> (parsed: Result<
    Endpoint,
    tonic::transport::Error,
>)
    ensures
        match parsed {
            Ok(made) => parsed_endpoint(endpoint@) == Some(made),
            Err(_) => parsed_endpoint(endpoint@) is None,
        },
{
    Endpoint::from_shared(endpoint)
}

/// Why the store cannot be reached.
#[derive(Debug)]
pub enum ConnectError {
    /// The text is no endpoint.
    InvalidEndpoint(tonic::transport::Error),
}

/// The store, as far as the worker has to know it: where it is and how long it
/// keeps what is written to it.
#[derive(Debug)]
pub struct StoreHandle {
    pub endpoint: Endpoint,
    pub ttl_seconds: u64,
}

/// The store that the environment names: by the value of
/// `RESPONSES_API_STORE_ENDPOINT` and that of `RESPONSE_ID_STORE_TTL_SECONDS`.
pub fn connect_from_env(endpoint: Option<&str>, ttl_seconds: Option<&str>) -> (handle: Result<
    StoreHandle,
    ConnectError,
>)
    ensures
        ({
            let parsed = parsed_endpoint(
                text_setting(str_view(endpoint), "http://responses-api-store:50051"@),
            );
            match handle {
                Ok(handle) => {
                    &&& parsed == Some(handle.endpoint)
                    &&& handle.ttl_seconds == u64_setting(
                        str_view(ttl_seconds),
                        DEFAULT_TTL_SECONDS,
                    )
                },
                Err(_) => parsed is None,
            }
        }),
{
    let endpoint = read_text(endpoint, "http://responses-api-store:50051");
    StoreHandle::from_endpoint(endpoint_from_shared(endpoint), ttl_seconds)
}

impl StoreHandle {
    /// The store at an endpoint that has been read, if it could be.
    pub fn from_endpoint(
        endpoint: Result<Endpoint, tonic::transport::Error>,
        ttl_seconds: Option<&str>,
    ) -> (handle: Result<StoreHandle, ConnectError>)
        ensures
            match endpoint {
                Ok(endpoint) => handle == Ok::<StoreHandle, ConnectError>(
                    StoreHandle {
                        endpoint,
                        ttl_seconds: u64_setting(str_view(ttl_seconds), DEFAULT_TTL_SECONDS),
                    },
                ),
                Err(err) => handle == Err::<StoreHandle, ConnectError>(
                    ConnectError::InvalidEndpoint(err),
                ),
            },
    {
        let ttl_seconds: u64 = read_u64(ttl_seconds, DEFAULT_TTL_SECONDS);
        match endpoint {
            Ok(endpoint) => Ok(StoreHandle { endpoint, ttl_seconds }),
            Err(err) => Err(ConnectError::InvalidEndpoint(err)),
        }
    }

    /// Writes a response, to be kept as long as this store keeps them.
    pub fn store(&self, response_id: &str, response: &StoredResponse) -> (request: StoreRequest)
        ensures
            request matches StoreRequest::StoreResponse {
                response_id: id,
                response: written,
                ttl_seconds,
            } && id@ == response_id@ && written == *response && ttl_seconds == Some(
                self.ttl_seconds,
            ),
    {
        StoreRequest::StoreResponse {
            response_id: response_id.to_owned(),
            response: response.clone(),
            ttl_seconds: Some(self.ttl_seconds),
        }
    }

    /// Reads a response.
    pub fn load(&self, response_id: &str) -> (request: StoreRequest)
        ensures
            request matches StoreRequest::GetResponse { response_id: id, switch } && id@
                == response_id@ && !switch,
    {
        StoreRequest::GetResponse { response_id: response_id.to_owned(), switch: false }
    }

    /// Claims jobs.
    pub fn claim_background_jobs(&self, request: ClaimBackgroundJobsRequest) -> (call: StoreRequest)
        ensures
            call == StoreRequest::ClaimBackgroundJobs(request),
    {
        StoreRequest::ClaimBackgroundJobs(request)
    }

    /// Reports a job as done.
    pub fn acknowledge_background_job(&self, consumer_group: &str, stream_id: &str) -> (request:
        StoreRequest)
        ensures
            request matches StoreRequest::AcknowledgeBackgroundJob {
                consumer_group: group,
                stream_id: id,
            } && group@ == consumer_group@ && id@ == stream_id@,
    {
        StoreRequest::AcknowledgeBackgroundJob {
            consumer_group: consumer_group.to_owned(),
            stream_id: stream_id.to_owned(),
        }
    }

    /// Makes sure that a consumer group exists that reads from `start_id` on.
    pub fn ensure_consumer_group(&self, consumer_group: &str, start_id: &str) -> (request:
        StoreRequest)
        ensures
            request matches StoreRequest::EnsureConsumerGroup {
                consumer_group: group,
                start_id: start,
            } && group@ == consumer_group@ && start@ == start_id@,
    {
        StoreRequest::EnsureConsumerGroup {
            consumer_group: consumer_group.to_owned(),
            start_id: start_id.to_owned(),
        }
    }
}

/// Whether a failed read says that there is no such response.
pub open spec fn says_not_found(err: ClientError) -> bool {
    match err {
        ClientError::NotFound(_) => true,
        ClientError::Rpc(status) => status.code == Code::NotFound,
        _ => false,
    }
}

/// What a read found: a response, none, or a failure.
pub fn load_result(fetched: Result<StoredResponse, ClientError>) -> (loaded: Result<
    Option<StoredResponse>,
    StoreError,
>)
    ensures
        loaded == match fetched {
            Ok(record) => Ok::<Option<StoredResponse>, StoreError>(Some(record)),
            Err(err) => if says_not_found(err) {
                Ok(None)
            } else {
                Err(StoreError::Client(err))
            },
        },
{
    match fetched {
        Ok(record) => Ok(Some(record)),
        Err(ClientError::NotFound(_)) => Ok(None),
        Err(ClientError::Rpc(status)) => match status.code {
            Code::NotFound => Ok(None),
            _ => Err(map_client_error(ClientError::Rpc(status))),
        },
        Err(err) => Err(map_client_error(err)),
    }
}

/// That a response does not exist is an answer, and no failure that is tried
/// again.
pub proof fn not_found_is_not_retryable(err: ClientError)
    requires
        says_not_found(err),
    ensures
        !store_error_is_retryable(StoreError::Client(err)),
{
}

/// The verdict on a chain of causes is that of its first client failure or
/// status: what comes before and after that does not matter.
pub proof fn first_known_cause_decides(before: Seq<Cause>, cause: Cause, after: Seq<Cause>)
    requires
        forall|i: int| 0 <= i < before.len() ==> (#[trigger] before[i]) is Other,
        !(cause is Other),
    ensures
        causes_are_retryable(before + seq![cause] + after) == causes_are_retryable(seq![cause]),
    decreases before.len(),
{
    let causes = before + seq![cause] + after;
    if before.len() == 0 {
        assert(causes[0] == cause);
    } else {
        assert(causes[0] == before[0]);
        assert(causes.skip(1) =~= before.skip(1) + seq![cause] + after);
        first_known_cause_decides(before.skip(1), cause, after);
    }
}

/// A call is worth repeating exactly if its status is one of six, whether the
/// status comes alone, in a failure of the client or in a chain of causes.
pub proof fn six_statuses_are_worth_a_retry(status: Status)
    ensures
        ({
            let worth = status.code == Code::Unavailable || status.code == Code::DeadlineExceeded
                || status.code == Code::ResourceExhausted || status.code == Code::Aborted
                || status.code == Code::Internal || status.code == Code::Unknown;
            &&& code_is_retryable(status.code) <==> worth
            &&& client_error_is_retryable(ClientError::Rpc(status)) <==> worth
            &&& store_error_is_retryable(StoreError::Client(ClientError::Rpc(status))) <==> worth
            &&& causes_are_retryable(seq![Cause::Status(status)]) <==> worth
            &&& causes_are_retryable(seq![Cause::Client(ClientError::Rpc(status))]) <==> worth
        }),
{
}

/// A store that cannot be reached is worth another call. A record that cannot
/// be read or does not exist and a client that is not set up are not. All of
/// them are judged alike, alone or in a chain of causes.
pub proof fn failures_without_a_status(err: ClientError)
    requires
        !(err is Rpc),
    ensures
        client_error_is_retryable(err) <==> err is Transport,
        store_error_is_retryable(StoreError::Client(err)) <==> err is Transport,
        causes_are_retryable(seq![Cause::Client(err)]) <==> err is Transport,
{
}

/// A failure with a chain of causes is worth a retry exactly if the first of
/// them that is a client's failure or a status is.
pub proof fn chain_is_judged_by_its_first_known_cause(causes: Vec<Cause>)
    ensures
        store_error_is_retryable(StoreError::Other(causes)) <==> exists|i: int|
            0 <= i < causes.len() && (forall|j: int| 0 <= j < i ==> (#[trigger] causes[j]) is Other)
                && match #[trigger] causes[i] {
                Cause::Client(err) => client_error_is_retryable(err),
                Cause::Status(status) => code_is_retryable(status.code),
                Cause::Other(_) => false,
            },
{
    lemma_chain(causes@);
    assert forall|i: int| 0 <= i < causes.len() implies #[trigger] causes[i] == causes@[i] by {}
    if store_error_is_retryable(StoreError::Other(causes)) {
        let i = choose|i: int| decides_for_retry(causes@, i);
        assert(decides_for_retry(causes@, i));
        assert(0 <= i < causes.len());
        assert forall|j: int| 0 <= j < i implies (#[trigger] causes[j]) is Other by {
            assert(causes@[j] is Other);
        }
        assert(causes[i] == causes@[i]);
    }
    if exists|i: int|
        0 <= i < causes.len() && (forall|j: int| 0 <= j < i ==> (#[trigger] causes[j]) is Other)
            && match #[trigger] causes[i] {
            Cause::Client(err) => client_error_is_retryable(err),
            Cause::Status(status) => code_is_retryable(status.code),
            Cause::Other(_) => false,
        } {
        let i = choose|i: int|
            0 <= i < causes.len() && (forall|j: int| 0 <= j < i ==> (#[trigger] causes[j]) is Other)
                && match #[trigger] causes[i] {
                Cause::Client(err) => client_error_is_retryable(err),
                Cause::Status(status) => code_is_retryable(status.code),
                Cause::Other(_) => false,
            };
        assert forall|j: int| 0 <= j < i implies (#[trigger] causes@[j]) is Other by {
            assert(causes[j] is Other);
        }
        assert(decides_for_retry(causes@, i));
    }
}

/// Whether the cause at `i` is the first known one and worth a retry.
spec fn decides_for_retry(causes: Seq<Cause>, i: int) -> bool {
    &&& 0 <= i < causes.len()
    &&& forall|j: int| 0 <= j < i ==> (#[trigger] causes[j]) is Other
    &&& match causes[i] {
        Cause::Client(err) => client_error_is_retryable(err),
        Cause::Status(status) => code_is_retryable(status.code),
        Cause::Other(_) => false,
    }
}

/// The verdict on a chain is that of its first known cause.
proof fn lemma_chain(causes: Seq<Cause>)
    ensures
        causes_are_retryable(causes) <==> exists|i: int| decides_for_retry(causes, i),
    decreases causes.len(),
{
    if causes.len() > 0 {
        let rest = causes.skip(1);
        if causes[0] is Other {
            lemma_chain(rest);
            if causes_are_retryable(rest) {
                let i = choose|i: int| decides_for_retry(rest, i);
                assert(rest[i] == causes[i + 1]);
                assert forall|j: int| 0 <= j < i + 1 implies (#[trigger] causes[j]) is Other by {
                    if j > 0 {
                        assert(rest[j - 1] == causes[j]);
                    }
                }
                assert(decides_for_retry(causes, i + 1));
            }
            if exists|i: int| decides_for_retry(causes, i) {
                let i = choose|i: int| decides_for_retry(causes, i);
                assert(i > 0);
                assert(rest[i - 1] == causes[i]);
                assert forall|j: int| 0 <= j < i - 1 implies (#[trigger] rest[j]) is Other by {
                    assert(rest[j] == causes[j + 1]);
                }
                assert(decides_for_retry(rest, i - 1));
            }
        } else {
            if causes_are_retryable(causes) {
                assert(decides_for_retry(causes, 0));
            }
            if exists|i: int| decides_for_retry(causes, i) {
                let i = choose|i: int| decides_for_retry(causes, i);
                assert(i == 0) by {
                    if i > 0 {
                        assert(causes[0] is Other);
                    }
                }
            }
        }
    }
}

/// A read finds nothing exactly if the store says so, in its own words or by
/// the status of the call.
pub proof fn absence_is_told_in_two_ways(err: ClientError)
    ensures
        says_not_found(err) <==> err is NotFound || err is Rpc && err->Rpc_0.code == Code::NotFound,
{
}

} // verus!
