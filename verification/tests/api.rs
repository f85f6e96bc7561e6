use std::collections::HashMap;

use stevedore::api::{
    job_queried, job_started, job_stopped, query_job, start_call, start_job, stop_job, stream_job,
    stream_opened, Command, JobInfo, JobStatus, QueryJobRequest, QueryJobResponse,
    StartJobRequest, StopJobRequest, StreamJobRequest, WorkerError,
};
use stevedore::error::{ErrorKind, ServiceError};
use stevedore::ident::{JobId, OwnerId};
use stevedore::stream::StreamStep;

struct Job {
    owner: OwnerId,
    info: JobInfo,
    output: Vec<u8>,
}

/// A worker that finishes every job at once, echoes the arguments of `echo`,
/// checks ownership, and counts the calls it receives.
struct FakeWorker {
    jobs: HashMap<JobId, Job>,
    next: u128,
    calls: usize,
}

impl FakeWorker {
    fn new() -> Self {
        FakeWorker { jobs: HashMap::new(), next: 1, calls: 0 }
    }

    fn start(&mut self, command: Command, owner: OwnerId) -> Result<JobId, WorkerError> {
        self.calls += 1;
        if command.name != "echo" {
            return Err(WorkerError::Failed(format!("cannot run {}", command.name)));
        }
        let job = JobId { value: self.next };
        self.next += 1;
        let mut output = command.args.join(" ").into_bytes();
        output.push(b'\n');
        let info = JobInfo { status: JobStatus::Exited, pid: None, exit_code: Some(0) };
        self.jobs.insert(job, Job { owner, info, output });
        Ok(job)
    }

    fn find(&mut self, job: JobId, owner: OwnerId) -> Result<&mut Job, WorkerError> {
        self.calls += 1;
        match self.jobs.get_mut(&job) {
            None => Err(WorkerError::Failed(String::from("no such job"))),
            Some(found) if found.owner != owner => {
                Err(WorkerError::Unauthorized(String::from("not the owner of this job")))
            }
            Some(found) => Ok(found),
        }
    }

    fn stop(&mut self, job: JobId, owner: OwnerId, _gracefully: bool) -> Result<(), WorkerError> {
        let found = self.find(job, owner)?;
        found.info.status = JobStatus::Signaled;
        Ok(())
    }

    fn query(&mut self, job: JobId, owner: OwnerId) -> Result<JobInfo, WorkerError> {
        self.find(job, owner).map(|found| found.info)
    }

    fn stream(&mut self, job: JobId, owner: OwnerId) -> Result<Vec<u8>, WorkerError> {
        self.find(job, owner).map(|found| found.output.clone())
    }
}

/// The service, as the embedding program would wire it to a worker.
struct Service {
    worker: FakeWorker,
    last_owner: Option<OwnerId>,
}

impl Service {
    fn new() -> Self {
        Service { worker: FakeWorker::new(), last_owner: None }
    }

    fn start(&mut self, name: &str, args: &[&str]) -> Result<String, ServiceError> {
        let request = StartJobRequest {
            name: name.to_string(),
            args: args.iter().map(|a| a.to_string()).collect(),
        };
        let call = start_job(request);
        self.last_owner = Some(call.owner);
        job_started(self.worker.start(call.command, call.owner)).map(|r| r.job_id)
    }

    fn stop(&mut self, job_id: &str, owner_id: &str, gracefully: bool) -> Result<(), ServiceError> {
        let request = StopJobRequest {
            job_id: job_id.to_string(),
            owner_id: owner_id.to_string(),
            gracefully,
        };
        let call = stop_job(&request)?;
        job_stopped(self.worker.stop(call.job, call.owner, call.gracefully)).map(|_| ())
    }

    fn query(&mut self, job_id: &str, owner_id: &str) -> Result<QueryJobResponse, ServiceError> {
        let request =
            QueryJobRequest { job_id: job_id.to_string(), owner_id: owner_id.to_string() };
        let call = query_job(&request)?;
        job_queried(self.worker.query(call.job, call.owner))
    }

    fn stream(&mut self, job_id: &str, owner_id: &str) -> Result<Vec<u8>, ServiceError> {
        let request =
            StreamJobRequest { job_id: job_id.to_string(), owner_id: owner_id.to_string() };
        let call = stream_job(&request)?;
        let opened = self.worker.stream(call.job, call.owner);
        let (data, outcome) = match opened {
            Ok(data) => (data, Ok(())),
            Err(e) => (Vec::new(), Err(e)),
        };
        let mut stream = stream_opened(outcome)?;
        let mut sent = Vec::new();
        let mut rest = data.as_slice();
        while stream.is_open() {
            let n = rest.len().min(stevedore::stream::CHUNK_SIZE);
            if let StreamStep::Chunk(response) = stream.on_read(Ok(&rest[..n])) {
                sent.extend_from_slice(&response.output);
            }
            rest = &rest[n..];
        }
        Ok(sent)
    }
}

const WRONG_OWNER: &str = "67e55044-10b1-426f-9247-bb680e5fe0c8";

#[test]
fn start_job_keeps_the_command() {
    let request = StartJobRequest {
        name: String::from("echo"),
        args: vec![String::from("hi"), String::from("there")],
    };
    let call = start_job(request);
    assert_eq!(call.command.name, "echo");
    assert_eq!(call.command.args, vec![String::from("hi"), String::from("there")]);
    assert_eq!((call.owner.value >> 76) & 0xf, 4);
    assert_eq!((call.owner.value >> 62) & 0x3, 2);
}

#[test]
fn start_job_makes_an_owner_for_each_call() {
    let a = start_job(StartJobRequest { name: String::from("a"), args: vec![] });
    let b = start_job(StartJobRequest { name: String::from("a"), args: vec![] });
    assert_ne!(a.owner, b.owner);
}

#[test]
fn started_job_is_reported_by_its_text() {
    let reply = job_started(Ok(JobId { value: 0x550e8400_e29b_41d4_a716_446655440000 })).unwrap();
    assert_eq!(reply.job_id, "550e8400-e29b-41d4-a716-446655440000");
}

#[test]
fn failed_start_is_a_worker_failure_with_the_message() {
    let e = job_started(Err(WorkerError::Failed(String::from("out of memory")))).unwrap_err();
    assert_eq!(e.kind(), ErrorKind::WorkerFailure);
    assert_eq!(e.message(), "out of memory");
}

#[test]
fn stop_job_passes_identifiers_and_flag_through() {
    for gracefully in [true, false] {
        let request = StopJobRequest {
            job_id: String::from("550e8400-e29b-41d4-a716-446655440000"),
            owner_id: String::from(WRONG_OWNER),
            gracefully,
        };
        let call = stop_job(&request).unwrap();
        assert_eq!(call.job.value, 0x550e8400_e29b_41d4_a716_446655440000);
        assert_eq!(call.owner.value, 0x67e55044_10b1_426f_9247_bb680e5fe0c8);
        assert_eq!(call.gracefully, gracefully);
    }
}

#[test]
fn query_and_stream_pass_identifiers_through() {
    let job_id = String::from("550e8400-e29b-41d4-a716-446655440000");
    let owner_id = String::from(WRONG_OWNER);
    let q = query_job(&QueryJobRequest { job_id: job_id.clone(), owner_id: owner_id.clone() })
        .unwrap();
    let s = stream_job(&StreamJobRequest { job_id, owner_id }).unwrap();
    assert_eq!(q.job.value, 0x550e8400_e29b_41d4_a716_446655440000);
    assert_eq!(q.owner.value, 0x67e55044_10b1_426f_9247_bb680e5fe0c8);
    assert_eq!(s.job, q.job);
    assert_eq!(s.owner, q.owner);
}

#[test]
fn stopped_job_is_acknowledged() {
    assert!(job_stopped(Ok(())).is_ok());
}

#[test]
fn refusal_is_unauthorized_with_the_message() {
    let refusal = || WorkerError::Unauthorized(String::from("not yours"));
    let e = job_stopped(Err(refusal())).unwrap_err();
    assert_eq!((e.kind(), e.message()), (ErrorKind::Unauthorized, "not yours"));
    let e = job_queried(Err(refusal())).unwrap_err();
    assert_eq!((e.kind(), e.message()), (ErrorKind::Unauthorized, "not yours"));
    let e = stream_opened(Err(refusal())).unwrap_err();
    assert_eq!((e.kind(), e.message()), (ErrorKind::Unauthorized, "not yours"));
}

#[test]
fn worker_failure_keeps_the_message() {
    let failure = || WorkerError::Failed(String::from("no such job"));
    let e = job_stopped(Err(failure())).unwrap_err();
    assert_eq!((e.kind(), e.message()), (ErrorKind::WorkerFailure, "no such job"));
    let e = job_queried(Err(failure())).unwrap_err();
    assert_eq!((e.kind(), e.message()), (ErrorKind::WorkerFailure, "no such job"));
    let e = stream_opened(Err(failure())).unwrap_err();
    assert_eq!((e.kind(), e.message()), (ErrorKind::WorkerFailure, "no such job"));
}

#[test]
fn surface_keeps_kind_and_message() {
    let e = WorkerError::Unauthorized(String::from("a")).surface();
    assert_eq!((e.kind(), e.message()), (ErrorKind::Unauthorized, "a"));
    let e = WorkerError::Failed(String::from("b")).surface();
    assert_eq!((e.kind(), e.message()), (ErrorKind::WorkerFailure, "b"));
}

#[test]
fn query_reply_reports_what_the_worker_reported() {
    let info = JobInfo { status: JobStatus::Running, pid: Some(4242), exit_code: None };
    let reply = job_queried(Ok(info)).unwrap();
    assert_eq!(reply.status, "Running");
    assert_eq!(reply.pid, Some(4242));
    assert_eq!(reply.exit_code, None);
    let info = JobInfo { status: JobStatus::Exited, pid: None, exit_code: Some(-3) };
    let reply = job_queried(Ok(info)).unwrap();
    assert_eq!(reply.status, "Exited");
    assert_eq!(reply.pid, None);
    assert_eq!(reply.exit_code, Some(-3));
}

#[test]
fn every_status_has_its_name() {
    assert_eq!(JobStatus::Running.as_text(), "Running");
    assert_eq!(JobStatus::Exited.as_text(), "Exited");
    assert_eq!(JobStatus::Signaled.as_text(), "Signaled");
    assert_eq!(JobStatus::Unknown.as_text(), "Unknown");
}

#[test]
fn every_name_reads_back_as_its_status() {
    for status in [JobStatus::Running, JobStatus::Exited, JobStatus::Signaled, JobStatus::Unknown] {
        assert_eq!(JobStatus::from_text(status.as_text()), status);
    }
}

#[test]
fn other_names_are_an_unknown_status() {
    for text in ["", "running", "Exited ", "Killed", "R"] {
        assert_eq!(JobStatus::from_text(text), JobStatus::Unknown);
    }
}

#[test]
fn opened_stream_is_open() {
    assert!(stream_opened(Ok(())).unwrap().is_open());
}

#[test]
fn malformed_identifiers_never_reach_the_worker() {
    let mut service = Service::new();
    let job_id = service.start("echo", &["hi"]).unwrap();
    let owner_id = service.last_owner.unwrap().to_text();
    let calls = service.worker.calls;
    let malformed = ["", "x", "550e8400-e29b-41d4-a716", "550e8400-e29b-41d4-a716-44665544000g"];
    for bad in malformed {
        let e = service.stop(bad, &owner_id, true).unwrap_err();
        assert_eq!(e.kind(), ErrorKind::InvalidArgument);
        let e = service.stop(&job_id, bad, false).unwrap_err();
        assert_eq!(e.kind(), ErrorKind::InvalidArgument);
        let e = service.query(bad, &owner_id).unwrap_err();
        assert_eq!(e.kind(), ErrorKind::InvalidArgument);
        let e = service.query(&job_id, bad).unwrap_err();
        assert_eq!(e.kind(), ErrorKind::InvalidArgument);
        let e = service.stream(bad, &owner_id).unwrap_err();
        assert_eq!(e.kind(), ErrorKind::InvalidArgument);
        let e = service.stream(&job_id, bad).unwrap_err();
        assert_eq!(e.kind(), ErrorKind::InvalidArgument);
    }
    assert_eq!(service.worker.calls, calls);
}

#[test]
fn foreign_owner_is_unauthorized_everywhere() {
    let mut service = Service::new();
    let job_id = service.start("echo", &["secret"]).unwrap();
    let e = service.stop(&job_id, WRONG_OWNER, false).unwrap_err();
    assert_eq!(e.kind(), ErrorKind::Unauthorized);
    let e = service.query(&job_id, WRONG_OWNER).unwrap_err();
    assert_eq!(e.kind(), ErrorKind::Unauthorized);
    let e = service.stream(&job_id, WRONG_OWNER).unwrap_err();
    assert_eq!(e.kind(), ErrorKind::Unauthorized);
    assert_eq!(e.message(), "not the owner of this job");
}

#[test]
fn echo_runs_from_start_to_output() {
    let mut service = Service::new();
    let job_id = service.start("echo", &["hi"]).unwrap();
    let owner_id = service.last_owner.unwrap().to_text();
    let reply = service.query(&job_id, &owner_id).unwrap();
    assert_eq!(reply.status, "Exited");
    assert_eq!(reply.exit_code, Some(0));
    assert_eq!(service.stream(&job_id, &owner_id).unwrap(), b"hi\n".to_vec());
}

#[test]
fn stop_by_wrong_owner_changes_nothing() {
    let mut service = Service::new();
    let job_id = service.start("echo", &["hi"]).unwrap();
    let owner_id = service.last_owner.unwrap().to_text();
    let before = service.query(&job_id, &owner_id).unwrap();
    let e = service.stop(&job_id, WRONG_OWNER, true).unwrap_err();
    assert_eq!(e.kind(), ErrorKind::Unauthorized);
    let after = service.query(&job_id, &owner_id).unwrap();
    assert_eq!(after.status, before.status);
    assert_eq!(after.pid, before.pid);
    assert_eq!(after.exit_code, before.exit_code);
    assert_eq!(after.status, "Exited");
}

#[test]
fn stop_by_owner_is_acknowledged() {
    let mut service = Service::new();
    let job_id = service.start("echo", &["hi"]).unwrap();
    let owner_id = service.last_owner.unwrap().to_text();
    service.stop(&job_id, &owner_id, true).unwrap();
    assert_eq!(service.query(&job_id, &owner_id).unwrap().status, "Signaled");
}

#[test]
fn unknown_job_is_a_worker_failure() {
    let mut service = Service::new();
    let e = service
        .query("550e8400-e29b-41d4-a716-446655440000", WRONG_OWNER)
        .unwrap_err();
    assert_eq!((e.kind(), e.message()), (ErrorKind::WorkerFailure, "no such job"));
}

#[test]
fn failed_start_reaches_the_caller() {
    let mut service = Service::new();
    let e = service.start("rm", &["-rf"]).unwrap_err();
    assert_eq!((e.kind(), e.message()), (ErrorKind::WorkerFailure, "cannot run rm"));
}

#[test]
fn long_output_is_streamed_whole() {
    let mut service = Service::new();
    let long = "x".repeat(10_000);
    let job_id = service.start("echo", &[long.as_str()]).unwrap();
    let owner_id = service.last_owner.unwrap().to_text();
    let mut expected = long.into_bytes();
    expected.push(b'\n');
    assert_eq!(service.stream(&job_id, &owner_id).unwrap(), expected);
}

#[test]
fn service_error_is_built_from_prefix_and_detail() {
    let e = ServiceError::with_detail(ErrorKind::InvalidArgument, "bad: ", "value");
    assert_eq!(e.kind(), ErrorKind::InvalidArgument);
    assert_eq!(e.message(), "bad: value");
}

#[test]
fn start_call_names_the_owner_it_is_given() {
    let request = StartJobRequest { name: String::from("ls"), args: vec![String::from("-l")] };
    let call = start_call(request, OwnerId { value: 42 });
    assert_eq!(call.command, Command { name: String::from("ls"), args: vec![String::from("-l")] });
    assert_eq!(call.owner, OwnerId { value: 42 });
}
