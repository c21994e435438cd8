//! The decisions of a small supervised worker system: a worker answers
//! work with a result and a crash with an error, after which it stops; the
//! supervisor logs results and restarts a worker for every error.
use vstd::prelude::*;

verus! {

/// What a worker is asked.
#[derive(Clone, Copy, Debug, PartialEq, Eq, Structural)]
pub enum WorkerMessage {
    DoWork(u32),
    Crash,
    Status,
}

/// What a worker tells its supervisor.
#[derive(Debug)]
pub enum SupervisorMessage {
    WorkerResult(u32),
    WorkerError(String),
}

/// What a worker does with a message.
#[derive(Debug)]
pub enum WorkerAction {
    /// Send the message to the supervisor and go on; stop where it cannot
    /// be sent.
    Reply(SupervisorMessage),
    /// Send the message to the supervisor, then stop.
    ReplyAndStop(SupervisorMessage),
    /// Tell that the worker is healthy and go on.
    ReportHealthy,
}

/// What the supervisor does with a message.
#[derive(Debug)]
pub enum SupervisorAction {
    /// Log the result.
    LogResult(u32),
    /// Log the error, start a new worker and ask it for its status.
    Restart(String),
}

/// The result of the work on `n`: twice `n`, wrapping as an optimised build
/// computes it.
pub open spec fn work_result(n: u32) -> u32 {
    ((2 * n as nat) % 0x1_0000_0000) as u32
}

/// The message with which a crashing worker says so.
pub open spec fn crash_message() -> Seq<char> {
    "Worker crashed!"@
}

/// The decision of a worker on `msg`.
pub fn worker_step(msg: WorkerMessage) -> (r: WorkerAction)
    ensures
        match msg {
            WorkerMessage::DoWork(n) => r matches WorkerAction::Reply(
                SupervisorMessage::WorkerResult(v),
            ) && v == work_result(n),
            WorkerMessage::Crash => r matches WorkerAction::ReplyAndStop(
                SupervisorMessage::WorkerError(e),
            ) && e@ == crash_message(),
            WorkerMessage::Status => r matches WorkerAction::ReportHealthy,
        },
{
    match msg {
        WorkerMessage::DoWork(n) => WorkerAction::Reply(
            SupervisorMessage::WorkerResult(n.wrapping_mul(2)),
        ),
        WorkerMessage::Crash => {
            proof {
                reveal_strlit("Worker crashed!");
            }
            WorkerAction::ReplyAndStop(SupervisorMessage::WorkerError("Worker crashed!".to_owned()))
        },
        WorkerMessage::Status => WorkerAction::ReportHealthy,
    }
}

/// The decision of the supervisor on `msg`.
pub fn supervisor_step(msg: SupervisorMessage) -> (r: SupervisorAction)
    ensures
        match msg {
            SupervisorMessage::WorkerResult(n) => r == SupervisorAction::LogResult(n),
            SupervisorMessage::WorkerError(e) => r == SupervisorAction::Restart(e),
        },
{
    match msg {
        SupervisorMessage::WorkerResult(n) => SupervisorAction::LogResult(n),
        SupervisorMessage::WorkerError(e) => SupervisorAction::Restart(e),
    }
}

/// The first message to each of `worker_count` workers: worker `id` is
/// asked to work on `id`.
pub fn initial_work(worker_count: u32) -> (r: Vec<WorkerMessage>)
    ensures
        r@.len() == worker_count,
        forall|id: int| 0 <= id < worker_count ==> #[trigger] r@[id] == WorkerMessage::DoWork(id as u32),
{
    let mut r: Vec<WorkerMessage> = Vec::new();
    let mut id: u32 = 0;
    while id < worker_count
        invariant
            id <= worker_count,
            r@.len() == id,
            forall|i: int| 0 <= i < id ==> #[trigger] r@[i] == WorkerMessage::DoWork(i as u32),
        decreases worker_count - id,
    {
        r.push(WorkerMessage::DoWork(id));
        id = id + 1;
    }
    r
}

/// The message with which the supervisor asks a restarted worker.
pub fn restart_message() -> (r: WorkerMessage)
    ensures
        r == WorkerMessage::Status,
{
    WorkerMessage::Status
}

} // verus!
