//! Finding the first strongly blue pixel of a 100 by 100 RGB image, behind
//! small task and data-source interfaces, and the decisions of a system that
//! runs such tasks on several workers and collects what they report.
use vstd::prelude::*;

verus! {

/// Width and height of the images that the pixel task scans.
pub const SIDE: u32 = 100;

/// A processing failure, with its message.
#[derive(Debug)]
pub struct ProcessingError(pub String);

/// Work done on one input.
pub trait Task {
    type Input;

    type Output;

    type Error;

    spec fn process_spec(&self, input: Self::Input) -> Result<Self::Output, Self::Error>;

    fn process(&self, input: Self::Input) -> (r: Result<Self::Output, Self::Error>)
        ensures
            r == self.process_spec(input),
    ;
}

/// Where the input of a task comes from.
pub trait DataSource {
    type Item;

    type Error;

    /// Whether `r` is what this source may hand out.
    spec fn gives(&self, r: Result<Self::Item, Self::Error>) -> bool;

    fn get_data(&self) -> (r: Result<Self::Item, Self::Error>)
        ensures
            self.gives(r),
    ;
}

/// Whether the pixel at position `k` (row-major, three bytes a pixel) lies
/// within `input` and is strongly blue: blue above 200, red and green below
/// 100.
pub open spec fn blue_at(input: Seq<u8>, k: int) -> bool {
    &&& 3 * k + 2 < input.len()
    &&& input[3 * k + 2] > 200
    &&& input[3 * k] < 100
    &&& input[3 * k + 1] < 100
}

/// The first strongly blue pixel of the 100 by 100 image in `input`, in
/// row-major order, as `(x, y)`.
pub open spec fn first_blue(input: Seq<u8>) -> Option<(u32, u32)> {
    if exists|k: int| 0 <= k < SIDE * SIDE && blue_at(input, k) {
        let k = choose|k: int|
            0 <= k < SIDE * SIDE && blue_at(input, k) && forall|j: int|
                0 <= j < k ==> !blue_at(input, j);
        Some(((k % SIDE as int) as u32, (k / SIDE as int) as u32))
    } else {
        None
    }
}

/// Finds the first strongly blue pixel.
#[derive(Clone, Copy)]
pub struct BluePixelTask;

/// Reports a pixel at `(42, 42)` whatever its input.
#[derive(Clone, Copy)]
pub struct MockTask;

/// An all-black 100 by 100 image.
#[derive(Clone, Copy)]
pub struct MockImageSource;

proof fn lemma_first_blue_is(input: Seq<u8>, k: int)
    requires
        0 <= k < SIDE * SIDE,
        blue_at(input, k),
        forall|j: int| 0 <= j < k ==> !blue_at(input, j),
    ensures
        first_blue(input) == Some(((k % SIDE as int) as u32, (k / SIDE as int) as u32)),
{
    let c = choose|c: int|
        0 <= c < SIDE * SIDE && blue_at(input, c) && forall|j: int| 0 <= j < c ==> !blue_at(input, j);
    assert(c == k) by {
        if c < k {
            assert(!blue_at(input, c));
        } else if k < c {
            assert(!blue_at(input, k));
        }
    }
}

impl Task for BluePixelTask {
    type Input = Vec<u8>;

    type Output = Option<(u32, u32)>;

    type Error = ProcessingError;

    open spec fn process_spec(&self, input: Vec<u8>) -> Result<Option<(u32, u32)>, ProcessingError> {
        Ok(first_blue(input@))
    }

    fn process(&self, input: Vec<u8>) -> (r: Result<Option<(u32, u32)>, ProcessingError>) {
        let width: u32 = SIDE;
        let height: u32 = SIDE;
        let mut y: u32 = 0;
        while y < height
            invariant
                width == SIDE,
                height == SIDE,
                y <= height,
                forall|j: int| 0 <= j < y * SIDE ==> !blue_at(input@, j),
            decreases height - y,
        {
            let mut x: u32 = 0;
            while x < width
                invariant
                    width == SIDE,
                    height == SIDE,
                    y < height,
                    x <= width,
                    forall|j: int| 0 <= j < y * SIDE + x ==> !blue_at(input@, j),
                decreases width - x,
            {
                let pos = ((y * width + x) * 3) as usize;
                if pos + 2 < input.len() {
                    let (r, g, b) = (input[pos], input[pos + 1], input[pos + 2]);
                    if b > 200 && r < 100 && g < 100 {
                        proof {
                            let k = y * SIDE + x;
                            assert(blue_at(input@, k as int));
                            assert(k as int % SIDE as int == x as int && k as int / SIDE as int
                                == y as int) by (nonlinear_arith)
                                requires
                                    k == y * SIDE + x,
                                    x < SIDE,
                            ;
                            lemma_first_blue_is(input@, k as int);
                        }
                        return Ok(Some((x, y)));
                    }
                }
                x = x + 1;
            }
            y = y + 1;
        }
        Ok(None)
    }
}

impl Task for MockTask {
    type Input = Vec<u8>;

    type Output = Option<(u32, u32)>;

    type Error = ProcessingError;

    open spec fn process_spec(&self, input: Vec<u8>) -> Result<Option<(u32, u32)>, ProcessingError> {
        Ok(Some((42, 42)))
    }

    fn process(&self, input: Vec<u8>) -> (r: Result<Option<(u32, u32)>, ProcessingError>) {
        Ok(Some((42, 42)))
    }
}

impl DataSource for MockImageSource {
    type Item = Vec<u8>;

    type Error = ProcessingError;

    open spec fn gives(&self, r: Result<Vec<u8>, ProcessingError>) -> bool {
        r matches Ok(v) && v@ == Seq::new((3 * SIDE * SIDE) as nat, |i: int| 0u8)
    }

    fn get_data(&self) -> (r: Result<Vec<u8>, ProcessingError>) {
        let v = vec![0u8; 30000];
        proof {
            assert(v@ =~= Seq::new((3 * SIDE * SIDE) as nat, |i: int| 0u8));
        }
        Ok(v)
    }
}

/// What a worker reports.
#[derive(Debug)]
pub enum SystemMessage {
    ProcessingResult(Result<Option<(u32, u32)>, ProcessingError>),
    Completed,
}

/// A task and a data source, run together on several workers.
pub struct ProcessingSystem<T, D> {
    pub task: T,
    pub data_source: D,
}

impl<
    T: Task<Input = Vec<u8>, Output = Option<(u32, u32)>, Error = ProcessingError>,
    D: DataSource<Item = Vec<u8>, Error = ProcessingError>,
> ProcessingSystem<T, D> {
    pub fn new(task: T, data_source: D) -> (r: Self)
        ensures
            r.task == task,
            r.data_source == data_source,
    {
        ProcessingSystem { task, data_source }
    }

    /// The work of one worker: the task's result on the source's data, or
    /// the source's error.
    pub fn work(&self) -> (r: SystemMessage)
        ensures
            exists|d: Result<Vec<u8>, ProcessingError>|
                self.data_source.gives(d) && r == match d {
                    Ok(data) => SystemMessage::ProcessingResult(self.task.process_spec(data)),
                    Err(e) => SystemMessage::ProcessingResult(Err(e)),
                },
    {
        let d = self.data_source.get_data();
        let ghost d0 = d;
        let r = match d {
            Ok(data) => SystemMessage::ProcessingResult(self.task.process(data)),
            Err(e) => SystemMessage::ProcessingResult(Err(e)),
        };
        assert(self.data_source.gives(d0));
        r
    }
}

/// How far the collection of reports has come.
#[derive(Clone, Copy, Debug, PartialEq, Eq, Structural)]
pub struct RunState {
    pub completed: usize,
    pub num_workers: usize,
}

/// What to do with a report.
#[derive(Debug)]
pub enum RunAction {
    /// Tell that a blue pixel was found at `(x, y)`.
    ReportFound(u32, u32),
    /// Tell that no blue pixel was found.
    ReportNone,
    /// Tell of a failure.
    ReportError(ProcessingError),
    /// Wait for the next report.
    Wait,
    /// All workers have completed: stop.
    Finish,
}

/// The decision on one report while not every worker has completed: results
/// are told and leave the count alone; a completion is counted, and the last
/// one ends the run.
pub fn on_message(state: RunState, msg: SystemMessage) -> (r: (RunState, RunAction))
    requires
        state.completed < state.num_workers,
    ensures
        match msg {
            SystemMessage::ProcessingResult(Ok(Some((x, y)))) => r.0 == state && r.1 == RunAction::ReportFound(x, y),
            SystemMessage::ProcessingResult(Ok(None)) => r.0 == state && r.1 == RunAction::ReportNone,
            SystemMessage::ProcessingResult(Err(e)) => r.0 == state && r.1 == RunAction::ReportError(e),
            SystemMessage::Completed => r.0 == RunState { completed: (state.completed + 1) as usize, ..state }
                && r.1 == (if state.completed + 1 == state.num_workers {
                    RunAction::Finish
                } else {
                    RunAction::Wait
                }),
        },
{
    match msg {
        SystemMessage::ProcessingResult(Ok(Some((x, y)))) => (state, RunAction::ReportFound(x, y)),
        SystemMessage::ProcessingResult(Ok(None)) => (state, RunAction::ReportNone),
        SystemMessage::ProcessingResult(Err(e)) => (state, RunAction::ReportError(e)),
        SystemMessage::Completed => {
            let completed = state.completed + 1;
            let next = RunState { completed, ..state };
            if completed == state.num_workers {
                (next, RunAction::Finish)
            } else {
                (next, RunAction::Wait)
            }
        },
    }
}

} // verus!
