use autofingers::actors::{
    initial_work, restart_message, supervisor_step, worker_step, SupervisorAction,
    SupervisorMessage, WorkerAction, WorkerMessage,
};
use autofingers::pixels::{
    on_message, BluePixelTask, DataSource, MockImageSource, MockTask, ProcessingError,
    ProcessingSystem, RunAction, RunState, SystemMessage, Task,
};

fn image_with(pixels: &[(usize, usize, [u8; 3])]) -> Vec<u8> {
    let mut v = vec![0u8; 30000];
    for (x, y, rgb) in pixels {
        let pos = (y * 100 + x) * 3;
        v[pos..pos + 3].copy_from_slice(rgb);
    }
    v
}

#[test]
fn blue_pixel_found_in_row_major_order() {
    let img = image_with(&[(50, 3, [0, 0, 255]), (7, 3, [10, 20, 201]), (90, 1, [0, 0, 250])]);
    assert_eq!(BluePixelTask.process(img).unwrap(), Some((90, 1)));
}

#[test]
fn blue_pixel_thresholds_are_strict() {
    let img = image_with(&[(0, 0, [0, 0, 200]), (1, 0, [100, 0, 255]), (2, 0, [0, 100, 255])]);
    assert_eq!(BluePixelTask.process(img).unwrap(), None);
    let img = image_with(&[(3, 0, [99, 99, 201])]);
    assert_eq!(BluePixelTask.process(img).unwrap(), Some((3, 0)));
}

#[test]
fn blue_pixel_scan_ignores_bytes_beyond_the_input() {
    assert_eq!(BluePixelTask.process(Vec::new()).unwrap(), None);
    assert_eq!(BluePixelTask.process(vec![0, 0, 255]).unwrap(), Some((0, 0)));
    assert_eq!(BluePixelTask.process(vec![0, 0]).unwrap(), None);
    let mut big = vec![0u8; 30010];
    big[30002] = 255;
    assert_eq!(BluePixelTask.process(big).unwrap(), None);
}

#[test]
fn mocks_behave_as_described() {
    assert_eq!(MockTask.process(vec![1, 2, 3]).unwrap(), Some((42, 42)));
    let data = MockImageSource.get_data().unwrap();
    assert_eq!(data.len(), 30000);
    assert!(data.iter().all(|b| *b == 0));
}

#[test]
fn system_work_runs_the_task_on_the_data() {
    let sys = ProcessingSystem::new(BluePixelTask, MockImageSource);
    assert!(matches!(sys.work(), SystemMessage::ProcessingResult(Ok(None))));
    let sys = ProcessingSystem::new(MockTask, MockImageSource);
    assert!(matches!(sys.work(), SystemMessage::ProcessingResult(Ok(Some((42, 42))))));
}

#[test]
fn run_counts_completions_until_the_last_worker() {
    let s = RunState { completed: 0, num_workers: 2 };
    let (s, a) = on_message(s, SystemMessage::ProcessingResult(Ok(Some((4, 5)))));
    assert!(matches!(a, RunAction::ReportFound(4, 5)));
    assert_eq!(s.completed, 0);
    let (s, a) = on_message(s, SystemMessage::Completed);
    assert!(matches!(a, RunAction::Wait));
    let (s, a) = on_message(s, SystemMessage::ProcessingResult(Ok(None)));
    assert!(matches!(a, RunAction::ReportNone));
    let (s, a) = on_message(
        s,
        SystemMessage::ProcessingResult(Err(ProcessingError("bad".to_string()))),
    );
    match a {
        RunAction::ReportError(e) => assert_eq!(e.0, "bad"),
        other => panic!("unexpected {:?}", other),
    }
    let (s, a) = on_message(s, SystemMessage::Completed);
    assert!(matches!(a, RunAction::Finish));
    assert_eq!(s, RunState { completed: 2, num_workers: 2 });
}

#[test]
fn worker_doubles_work_and_stops_on_crash() {
    match worker_step(WorkerMessage::DoWork(21)) {
        WorkerAction::Reply(SupervisorMessage::WorkerResult(v)) => assert_eq!(v, 42),
        other => panic!("unexpected {:?}", other),
    }
    match worker_step(WorkerMessage::DoWork(0x8000_0001)) {
        WorkerAction::Reply(SupervisorMessage::WorkerResult(v)) => assert_eq!(v, 2),
        other => panic!("unexpected {:?}", other),
    }
    match worker_step(WorkerMessage::Crash) {
        WorkerAction::ReplyAndStop(SupervisorMessage::WorkerError(e)) => {
            assert_eq!(e, "Worker crashed!")
        }
        other => panic!("unexpected {:?}", other),
    }
    assert!(matches!(worker_step(WorkerMessage::Status), WorkerAction::ReportHealthy));
}

#[test]
fn supervisor_logs_results_and_restarts_on_errors() {
    assert!(matches!(
        supervisor_step(SupervisorMessage::WorkerResult(4)),
        SupervisorAction::LogResult(4)
    ));
    match supervisor_step(SupervisorMessage::WorkerError("boom".to_string())) {
        SupervisorAction::Restart(e) => assert_eq!(e, "boom"),
        other => panic!("unexpected {:?}", other),
    }
    assert_eq!(restart_message(), WorkerMessage::Status);
    assert_eq!(
        initial_work(3),
        vec![WorkerMessage::DoWork(0), WorkerMessage::DoWork(1), WorkerMessage::DoWork(2)]
    );
    assert!(initial_work(0).is_empty());
}
