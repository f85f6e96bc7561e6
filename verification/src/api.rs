//! The job-control surface: what each request asks of the worker, and what the
//! worker's answer becomes for the caller.
//!
//! The worker itself is not part of this library. A request is first turned
//! into the call to make (`start_job`, `stop_job`, `query_job`, `stream_job`);
//! the embedding program makes that call and hands the worker's answer to the
//! matching reply function (`job_started`, `job_stopped`, `job_queried`,
//! `stream_opened`). Requests with malformed identifiers never yield a call.

use vstd::prelude::*;
use crate::error::{ErrorKind, ServiceError, ServiceErrorView};
use crate::ident::{
    canonical_text, denotes, get_job_and_owner_uuids_from_str, identifiers_of, is_random_uuid,
    well_formed, JobId, OwnerId,
};
use crate::stream::LogStream;

verus! {

/// Asks to run `name` with `args`.
#[derive(Clone, Debug, PartialEq, Eq)]
pub struct StartJobRequest {
    pub name: String,
    pub args: Vec<String>,
}

/// Names the job that was started.
#[derive(Clone, Debug, PartialEq, Eq)]
pub struct StartJobResponse {
    pub job_id: String,
}

/// Asks to stop a job, cooperatively if `gracefully` is set.
#[derive(Clone, Debug, PartialEq, Eq)]
pub struct StopJobRequest {
    pub job_id: String,
    pub owner_id: String,
    pub gracefully: bool,
}

/// Acknowledges that a job was stopped.
#[derive(Clone, Copy, Debug, PartialEq, Eq, Structural)]
pub struct StopJobResponse {}

/// Asks for the state of a job.
#[derive(Clone, Debug, PartialEq, Eq)]
pub struct QueryJobRequest {
    pub job_id: String,
    pub owner_id: String,
}

/// The state of a job at the time of the query.
#[derive(Clone, Debug, PartialEq, Eq)]
pub struct QueryJobResponse {
    pub status: String,
    pub pid: Option<u32>,
    pub exit_code: Option<i32>,
}

/// Asks for the output of a job.
#[derive(Clone, Debug, PartialEq, Eq)]
pub struct StreamJobRequest {
    pub job_id: String,
    pub owner_id: String,
}

/// The mathematical content of a [`QueryJobResponse`].
pub struct QueryJobResponseView {
    pub status: Seq<char>,
    pub pid: Option<u32>,
    pub exit_code: Option<i32>,
}

impl View for QueryJobResponse {
    type V = QueryJobResponseView;

    open spec fn view(&self) -> QueryJobResponseView {
        QueryJobResponseView { status: self.status@, pid: self.pid, exit_code: self.exit_code }
    }
}

/// A program and its arguments, as handed to the worker.
#[derive(Clone, Debug, PartialEq, Eq)]
pub struct Command {
    pub name: String,
    pub args: Vec<String>,
}

/// The call that starts a job on behalf of `owner`.
#[derive(Clone, Debug, PartialEq, Eq)]
pub struct StartCall {
    pub command: Command,
    pub owner: OwnerId,
}

/// The call that stops `job` on behalf of `owner`.
#[derive(Clone, Copy, Debug, PartialEq, Eq, Structural)]
pub struct StopCall {
    pub job: JobId,
    pub owner: OwnerId,
    pub gracefully: bool,
}

/// The call that reads the state of `job` on behalf of `owner`.
#[derive(Clone, Copy, Debug, PartialEq, Eq, Structural)]
pub struct QueryCall {
    pub job: JobId,
    pub owner: OwnerId,
}

/// The call that opens the output of `job` on behalf of `owner`.
#[derive(Clone, Copy, Debug, PartialEq, Eq, Structural)]
pub struct StreamCall {
    pub job: JobId,
    pub owner: OwnerId,
}

/// Where a job stands in its life.
#[derive(Clone, Copy, Debug, PartialEq, Eq, Structural)]
pub enum JobStatus {
    Running,
    Exited,
    Signaled,
    Unknown,
}

/// What the worker reports of a job.
#[derive(Clone, Copy, Debug, PartialEq, Eq, Structural)]
pub struct JobInfo {
    pub status: JobStatus,
    /// The process identifier; absent if the job never started or was reaped.
    pub pid: Option<u32>,
    /// The exit code; absent while the job runs.
    pub exit_code: Option<i32>,
}

/// Why the worker did not carry out a call, with the worker's own message.
#[derive(Clone, Debug, PartialEq, Eq)]
pub enum WorkerError {
    /// The owner presented is not the owner recorded for the job.
    Unauthorized(String),
    /// Any other failure of the execution layer.
    Failed(String),
}

/// The mathematical content of a [`WorkerError`].
pub enum WorkerErrorView {
    Unauthorized(Seq<char>),
    Failed(Seq<char>),
}

impl View for WorkerError {
    type V = WorkerErrorView;

    open spec fn view(&self) -> WorkerErrorView {
        match self {
            WorkerError::Unauthorized(message) => WorkerErrorView::Unauthorized(message@),
            WorkerError::Failed(message) => WorkerErrorView::Failed(message@),
        }
    }
}

/// The name under which a status is reported to callers.
pub open spec fn status_text(status: JobStatus) -> Seq<char> {
    match status {
        JobStatus::Running => "Running"@,
        JobStatus::Exited => "Exited"@,
        JobStatus::Signaled => "Signaled"@,
        JobStatus::Unknown => "Unknown"@,
    }
}

/// How a failure of the worker is reported to the caller: a refusal for a
/// foreign owner as `Unauthorized`, anything else as `WorkerFailure`, in both
/// cases with the worker's message unchanged.
pub open spec fn surfaced(error: WorkerErrorView) -> ServiceErrorView {
    match error {
        WorkerErrorView::Unauthorized(message) => ServiceErrorView {
            kind: ErrorKind::Unauthorized,
            message,
        },
        WorkerErrorView::Failed(message) => ServiceErrorView {
            kind: ErrorKind::WorkerFailure,
            message,
        },
    }
}

/// The call that a stop request stands for, or the reason it is rejected.
pub open spec fn stop_call(job_id: Seq<char>, owner_id: Seq<char>, gracefully: bool) -> Result<
    StopCall,
    ServiceErrorView,
> {
    match identifiers_of(job_id, owner_id) {
        Ok(ids) => Ok(StopCall { job: ids.0, owner: ids.1, gracefully }),
        Err(e) => Err(e),
    }
}

/// The call that a query request stands for, or the reason it is rejected.
pub open spec fn query_call(job_id: Seq<char>, owner_id: Seq<char>) -> Result<
    QueryCall,
    ServiceErrorView,
> {
    match identifiers_of(job_id, owner_id) {
        Ok(ids) => Ok(QueryCall { job: ids.0, owner: ids.1 }),
        Err(e) => Err(e),
    }
}

/// The call that a stream request stands for, or the reason it is rejected.
pub open spec fn stream_call(job_id: Seq<char>, owner_id: Seq<char>) -> Result<
    StreamCall,
    ServiceErrorView,
> {
    match identifiers_of(job_id, owner_id) {
        Ok(ids) => Ok(StreamCall { job: ids.0, owner: ids.1 }),
        Err(e) => Err(e),
    }
}

/// The reply to a start call that the worker answered with `outcome`: the
/// canonical text of the new job's identifier, or the surfaced failure.
pub open spec fn started_reply(outcome: Result<JobId, WorkerErrorView>) -> Result<
    Seq<char>,
    ServiceErrorView,
> {
    match outcome {
        Ok(job) => Ok(canonical_text(job.value)),
        Err(error) => Err(surfaced(error)),
    }
}

/// The reply to a stop call that the worker answered with `outcome`.
pub open spec fn stopped_reply(outcome: Result<(), WorkerErrorView>) -> Result<
    StopJobResponse,
    ServiceErrorView,
> {
    match outcome {
        Ok(_) => Ok(StopJobResponse {  }),
        Err(error) => Err(surfaced(error)),
    }
}

/// The reply to a query call that the worker answered with `outcome`.
pub open spec fn queried_reply(outcome: Result<JobInfo, WorkerErrorView>) -> Result<
    QueryJobResponseView,
    ServiceErrorView,
> {
    match outcome {
        Ok(info) => Ok(
            QueryJobResponseView {
                status: status_text(info.status),
                pid: info.pid,
                exit_code: info.exit_code,
            },
        ),
        Err(error) => Err(surfaced(error)),
    }
}

/// The reply to a stream call that the worker answered with `outcome`:
/// whether a stream was opened, or the surfaced failure.
pub open spec fn opened_reply(outcome: Result<(), WorkerErrorView>) -> Result<
    (),
    ServiceErrorView,
> {
    match outcome {
        Ok(_) => Ok(()),
        Err(error) => Err(surfaced(error)),
    }
}

/// The worker's answer, with the failure taken by its view.
pub open spec fn answer<T>(outcome: Result<T, WorkerError>) -> Result<T, WorkerErrorView> {
    match outcome {
        Ok(value) => Ok(value),
        Err(error) => Err(error@),
    }
}

/// The status that a name stands for: the one reported under that name, and
/// `Unknown` for every other text.
pub open spec fn status_named(text: Seq<char>) -> JobStatus {
    if text == status_text(JobStatus::Running) {
        JobStatus::Running
    } else if text == status_text(JobStatus::Exited) {
        JobStatus::Exited
    } else if text == status_text(JobStatus::Signaled) {
        JobStatus::Signaled
    } else {
        JobStatus::Unknown
    }
}

/// Whether two texts are the same.
fn same_text(a: &str, b: &str) -> (same: bool)
    ensures
        same == (a@ == b@),
{
    String::from_str(a) == String::from_str(b)
}

impl JobStatus {
    /// The name under which this status is reported to callers.
    pub fn as_text(&self) -> (text: &'static str)
        ensures
            text@ == status_text(*self),
    {
        match self {
            JobStatus::Running => "Running",
            JobStatus::Exited => "Exited",
            JobStatus::Signaled => "Signaled",
            JobStatus::Unknown => "Unknown",
        }
    }

    /// The status that `text` names; `Unknown` if it names none.
    pub fn from_text(text: &str) -> (status: JobStatus)
        ensures
            status == status_named(text@),
    {
        if same_text(text, "Running") {
            JobStatus::Running
        } else if same_text(text, "Exited") {
            JobStatus::Exited
        } else if same_text(text, "Signaled") {
            JobStatus::Signaled
        } else {
            JobStatus::Unknown
        }
    }
}

/// Every status is read back from the name under which it is reported.
pub proof fn lemma_status_name_reads_back(status: JobStatus)
    ensures
        status_named(status_text(status)) == status,
{
    reveal_strlit("Running");
    reveal_strlit("Exited");
    reveal_strlit("Signaled");
    reveal_strlit("Unknown");
    assert("Running"@.len() == 7);
    assert("Exited"@.len() == 6);
    assert("Signaled"@.len() == 8);
    assert("Unknown"@.len() == 7);
    assert("Running"@[0] == 'R');
    assert("Unknown"@[0] == 'U');
}

impl WorkerError {
    /// Reports this failure to the caller, keeping the worker's message.
    pub fn surface(self) -> (e: ServiceError)
        ensures
            e@ == surfaced(self@),
    {
        match self {
            WorkerError::Unauthorized(message) => ServiceError {
                kind: ErrorKind::Unauthorized,
                message,
            },
            WorkerError::Failed(message) => ServiceError { kind: ErrorKind::WorkerFailure, message },
        }
    }
}

/// The call that starts the job of `request` on behalf of `owner`: the
/// command is the request's, unchanged.
pub fn start_call(request: StartJobRequest, owner: OwnerId) -> (call: StartCall)
    ensures
        call.command.name == request.name,
        call.command.args == request.args,
        call.owner == owner,
{
    let StartJobRequest { name, args } = request;
    StartCall { command: Command { name, args }, owner }
}

/// Turns a start request into the call for the worker.
///
/// The command is the request's, unchanged. The owner is a fresh random
/// identifier, made for this call alone.
pub fn start_job(request: StartJobRequest) -> (call: StartCall)
    ensures
        call.command.name == request.name,
        call.command.args == request.args,
        is_random_uuid(call.owner.value),
{
    start_call(request, OwnerId::generate())
}

/// Turns the worker's answer to a start call into the reply.
///
/// A started job is reported by the canonical text of its identifier, which
/// reads back as that identifier; a failure is surfaced with the worker's
/// message.
pub fn job_started(outcome: Result<JobId, WorkerError>) -> (reply: Result<
    StartJobResponse,
    ServiceError,
>)
    ensures
        match reply {
            Ok(response) => started_reply(answer(outcome)) == Ok::<Seq<char>, ServiceErrorView>(
                response.job_id@,
            ),
            Err(e) => started_reply(answer(outcome)) == Err::<Seq<char>, ServiceErrorView>(e@),
        },
        outcome matches Ok(job) ==> reply matches Ok(response) && denotes(
            response.job_id@,
            job.value,
        ),
{
    match outcome {
        Ok(job) => Ok(StartJobResponse { job_id: job.to_text() }),
        Err(error) => Err(error.surface()),
    }
}

/// Turns a stop request into the call for the worker.
///
/// Both identifiers are validated first. If either is malformed the request
/// is rejected as `InvalidArgument` and no call results. Otherwise the call
/// carries the identifiers and the flag exactly as the caller supplied them.
pub fn stop_job(request: &StopJobRequest) -> (r: Result<StopCall, ServiceError>)
    ensures
        match r {
            Ok(call) => stop_call(request.job_id@, request.owner_id@, request.gracefully) == Ok::<
                StopCall,
                ServiceErrorView,
            >(call),
            Err(e) => stop_call(request.job_id@, request.owner_id@, request.gracefully) == Err::<
                StopCall,
                ServiceErrorView,
            >(e@),
        },
        r is Ok <==> well_formed(request.job_id@) && well_formed(request.owner_id@),
{
    match get_job_and_owner_uuids_from_str(request.job_id.as_str(), request.owner_id.as_str()) {
        Ok((job, owner)) => Ok(StopCall { job, owner, gracefully: request.gracefully }),
        Err(e) => Err(e),
    }
}

/// Turns the worker's answer to a stop call into the reply.
pub fn job_stopped(outcome: Result<(), WorkerError>) -> (reply: Result<
    StopJobResponse,
    ServiceError,
>)
    ensures
        match reply {
            Ok(response) => stopped_reply(answer(outcome)) == Ok::<
                StopJobResponse,
                ServiceErrorView,
            >(response),
            Err(e) => stopped_reply(answer(outcome)) == Err::<StopJobResponse, ServiceErrorView>(
                e@,
            ),
        },
{
    match outcome {
        Ok(_) => Ok(StopJobResponse {  }),
        Err(error) => Err(error.surface()),
    }
}

/// Turns a query request into the call for the worker.
///
/// Both identifiers are validated first. If either is malformed the request
/// is rejected as `InvalidArgument` and no call results. Otherwise the call
/// carries the identifiers exactly as the caller supplied them.
pub fn query_job(request: &QueryJobRequest) -> (r: Result<QueryCall, ServiceError>)
    ensures
        match r {
            Ok(call) => query_call(request.job_id@, request.owner_id@) == Ok::<
                QueryCall,
                ServiceErrorView,
            >(call),
            Err(e) => query_call(request.job_id@, request.owner_id@) == Err::<
                QueryCall,
                ServiceErrorView,
            >(e@),
        },
        r is Ok <==> well_formed(request.job_id@) && well_formed(request.owner_id@),
{
    match get_job_and_owner_uuids_from_str(request.job_id.as_str(), request.owner_id.as_str()) {
        Ok((job, owner)) => Ok(QueryCall { job, owner }),
        Err(e) => Err(e),
    }
}

/// Turns the worker's answer to a query call into the reply.
///
/// The status is reported by name; the process identifier and the exit code
/// are present in the reply exactly when the worker reported them.
pub fn job_queried(outcome: Result<JobInfo, WorkerError>) -> (reply: Result<
    QueryJobResponse,
    ServiceError,
>)
    ensures
        match reply {
            Ok(response) => queried_reply(answer(outcome)) == Ok::<
                QueryJobResponseView,
                ServiceErrorView,
            >(response@),
            Err(e) => queried_reply(answer(outcome)) == Err::<
                QueryJobResponseView,
                ServiceErrorView,
            >(e@),
        },
{
    match outcome {
        Ok(info) => Ok(
            QueryJobResponse {
                status: String::from_str(info.status.as_text()),
                pid: info.pid,
                exit_code: info.exit_code,
            },
        ),
        Err(error) => Err(error.surface()),
    }
}

/// Turns a stream request into the call for the worker.
///
/// Both identifiers are validated first. If either is malformed the request
/// is rejected as `InvalidArgument` and no call results. Otherwise the call
/// carries the identifiers exactly as the caller supplied them.
pub fn stream_job(request: &StreamJobRequest) -> (r: Result<StreamCall, ServiceError>)
    ensures
        match r {
            Ok(call) => stream_call(request.job_id@, request.owner_id@) == Ok::<
                StreamCall,
                ServiceErrorView,
            >(call),
            Err(e) => stream_call(request.job_id@, request.owner_id@) == Err::<
                StreamCall,
                ServiceErrorView,
            >(e@),
        },
        r is Ok <==> well_formed(request.job_id@) && well_formed(request.owner_id@),
{
    match get_job_and_owner_uuids_from_str(request.job_id.as_str(), request.owner_id.as_str()) {
        Ok((job, owner)) => Ok(StreamCall { job, owner }),
        Err(e) => Err(e),
    }
}

/// Turns the worker's answer to a stream call into the reply: an open stream
/// that has delivered nothing yet, or the worker's failure.
pub fn stream_opened(outcome: Result<(), WorkerError>) -> (reply: Result<LogStream, ServiceError>)
    ensures
        match reply {
            Ok(stream) => stream.is_open() && opened_reply(answer(outcome)) == Ok::<
                (),
                ServiceErrorView,
            >(()),
            Err(e) => opened_reply(answer(outcome)) == Err::<(), ServiceErrorView>(e@),
        },
{
    match outcome {
        Ok(_) => Ok(LogStream::new()),
        Err(error) => Err(error.surface()),
    }
}

/// What a caller of stop receives when the worker behaves as `worker`. The
/// worker is consulted only for a request that stands for a call.
pub open spec fn stop_served(
    job_id: Seq<char>,
    owner_id: Seq<char>,
    gracefully: bool,
    worker: spec_fn(StopCall) -> Result<(), WorkerErrorView>,
) -> Result<StopJobResponse, ServiceErrorView> {
    match stop_call(job_id, owner_id, gracefully) {
        Ok(call) => stopped_reply(worker(call)),
        Err(e) => Err(e),
    }
}

/// What a caller of query receives when the worker behaves as `worker`.
pub open spec fn query_served(
    job_id: Seq<char>,
    owner_id: Seq<char>,
    worker: spec_fn(QueryCall) -> Result<JobInfo, WorkerErrorView>,
) -> Result<QueryJobResponseView, ServiceErrorView> {
    match query_call(job_id, owner_id) {
        Ok(call) => queried_reply(worker(call)),
        Err(e) => Err(e),
    }
}

/// What a caller of stream receives when the worker behaves as `worker`.
pub open spec fn stream_served(
    job_id: Seq<char>,
    owner_id: Seq<char>,
    worker: spec_fn(StreamCall) -> Result<(), WorkerErrorView>,
) -> Result<(), ServiceErrorView> {
    match stream_call(job_id, owner_id) {
        Ok(call) => opened_reply(worker(call)),
        Err(e) => Err(e),
    }
}

/// Whether the worker's answer honours ownership: a call on a recorded job by
/// anyone but its recorded owner is answered with `Unauthorized`.
pub open spec fn refuses_foreign_owner<T>(
    owners: Map<JobId, OwnerId>,
    job: JobId,
    owner: OwnerId,
    outcome: Result<T, WorkerErrorView>,
) -> bool {
    owners.contains_key(job) && owners[job] != owner ==> outcome matches Err(
        WorkerErrorView::Unauthorized(_),
    )
}

/// A request with a malformed job or owner identifier is rejected as
/// `InvalidArgument`, whichever of stop, query and stream it asks for and
/// however the worker behaves: the worker is not consulted.
pub proof fn lemma_malformed_identifier_is_rejected(
    job_id: Seq<char>,
    owner_id: Seq<char>,
    gracefully: bool,
    stop_worker: spec_fn(StopCall) -> Result<(), WorkerErrorView>,
    query_worker: spec_fn(QueryCall) -> Result<JobInfo, WorkerErrorView>,
    stream_worker: spec_fn(StreamCall) -> Result<(), WorkerErrorView>,
)
    requires
        !well_formed(job_id) || !well_formed(owner_id),
    ensures
        stop_call(job_id, owner_id, gracefully) is Err,
        query_call(job_id, owner_id) is Err,
        stream_call(job_id, owner_id) is Err,
        stop_served(job_id, owner_id, gracefully, stop_worker) matches Err(e) && e.kind
            == ErrorKind::InvalidArgument,
        query_served(job_id, owner_id, query_worker) matches Err(e) && e.kind
            == ErrorKind::InvalidArgument,
        stream_served(job_id, owner_id, stream_worker) matches Err(e) && e.kind
            == ErrorKind::InvalidArgument,
{
}

/// A caller who presents well-formed identifiers but is not the recorded
/// owner of the job is answered `Unauthorized` by stop, query and stream,
/// with the worker's message, whenever the worker honours ownership. The
/// call that reaches the worker names exactly the job and owner presented,
/// and no reply carries a job's data.
pub proof fn lemma_foreign_owner_is_unauthorized(
    owners: Map<JobId, OwnerId>,
    job_id: Seq<char>,
    owner_id: Seq<char>,
    gracefully: bool,
    stop_worker: spec_fn(StopCall) -> Result<(), WorkerErrorView>,
    query_worker: spec_fn(QueryCall) -> Result<JobInfo, WorkerErrorView>,
    stream_worker: spec_fn(StreamCall) -> Result<(), WorkerErrorView>,
)
    requires
        identifiers_of(job_id, owner_id) matches Ok(ids) && owners.contains_key(ids.0)
            && owners[ids.0] != ids.1,
        forall|call: StopCall| #[trigger]
            refuses_foreign_owner(owners, call.job, call.owner, stop_worker(call)),
        forall|call: QueryCall| #[trigger]
            refuses_foreign_owner(owners, call.job, call.owner, query_worker(call)),
        forall|call: StreamCall| #[trigger]
            refuses_foreign_owner(owners, call.job, call.owner, stream_worker(call)),
    ensures
        stop_call(job_id, owner_id, gracefully) matches Ok(call) && identifiers_of(
            job_id,
            owner_id,
        ) == Ok::<(JobId, OwnerId), ServiceErrorView>((call.job, call.owner)),
        query_call(job_id, owner_id) matches Ok(call) && identifiers_of(job_id, owner_id) == Ok::<
            (JobId, OwnerId),
            ServiceErrorView,
        >((call.job, call.owner)),
        stream_call(job_id, owner_id) matches Ok(call) && identifiers_of(job_id, owner_id) == Ok::<
            (JobId, OwnerId),
            ServiceErrorView,
        >((call.job, call.owner)),
        stop_served(job_id, owner_id, gracefully, stop_worker) matches Err(e) && e.kind
            == ErrorKind::Unauthorized,
        query_served(job_id, owner_id, query_worker) matches Err(e) && e.kind
            == ErrorKind::Unauthorized,
        stream_served(job_id, owner_id, stream_worker) matches Err(e) && e.kind
            == ErrorKind::Unauthorized,
{
    let ids = identifiers_of(job_id, owner_id)->Ok_0;
    let stop = StopCall { job: ids.0, owner: ids.1, gracefully };
    let query = QueryCall { job: ids.0, owner: ids.1 };
    let stream = StreamCall { job: ids.0, owner: ids.1 };
    assert(refuses_foreign_owner(owners, stop.job, stop.owner, stop_worker(stop)));
    assert(refuses_foreign_owner(owners, query.job, query.owner, query_worker(query)));
    assert(refuses_foreign_owner(owners, stream.job, stream.owner, stream_worker(stream)));
}

} // verus!
