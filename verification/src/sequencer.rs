//! The acceptance test of a device.
//!
//! The test tells the device its address, switches its four relays off and
//! reads the inputs, which must all be off. Then it takes the channels one
//! after the other: the relay is switched on, the inputs are read after
//! 100 ms and must show this channel and no other, the relay is switched off,
//! and another 100 ms pass. The first transaction that fails and the first
//! inputs that are not as they must be end the test; nothing is tried again
//! and no later channel is touched.
//!
//! Like the transaction engine, the test is a state machine. It names the
//! next task, a transaction or a wait, and is told what came of it.

use vstd::prelude::*;
use crate::code::Code;
use crate::device::{check_input, input_check};
use crate::error::{Checkpoint, Error};
use crate::response::Response;

verus! {

/// The time in milliseconds that a relay and the input that senses it are
/// given to settle after the relay was switched.
pub const RELAY_SETTLE_MS: u64 = 100;

/// The number of relay channels of a device.
pub const CHANNELS: u8 = 4;

/// The number of tasks of a test that runs to its end.
pub const SCRIPT_LENGTH: u8 = 26;

/// What the test asks for next.
pub enum Task {
    /// One transaction with the device under test: a command with this code
    /// and this payload.
    Transact { code: Code, payload: Vec<u8> },
    /// A wait of this many milliseconds.
    Settle(u64),
}

/// What came of the last task.
#[derive(Copy, Clone)]
pub enum Outcome {
    /// The transaction ended with this reply or this error.
    Replied(Result<Response, Error>),
    /// The wait is over.
    Settled,
}

/// A test that is under way.
pub struct AcceptanceTest {
    destination: [u8; 4],
    position: u8,
}

/// A test after an outcome: it goes on with a new task, or it has ended.
pub enum Progress {
    Next(AcceptanceTest, Task),
    Finished(Result<(), Error>),
}

/// A task, with the payload of a command as a sequence of bytes.
pub enum TaskView {
    Transact { code: Code, payload: Seq<u8> },
    Settle(u64),
}

/// A test under way: the address of the device, and the place in the script
/// of the task that was asked for last.
pub struct TestView {
    pub destination: Seq<u8>,
    pub position: int,
}

/// A test after an outcome, over the views of test and task.
pub enum ProgressView {
    Next(TestView, TaskView),
    Finished(Result<(), Error>),
}

impl View for Task {
    type V = TaskView;

    open spec fn view(&self) -> TaskView {
        match *self {
            Task::Transact { code, payload } => TaskView::Transact { code, payload: payload@ },
            Task::Settle(ms) => TaskView::Settle(ms),
        }
    }
}

impl View for AcceptanceTest {
    type V = TestView;

    closed spec fn view(&self) -> TestView {
        TestView { destination: self.destination@, position: self.position as int }
    }
}

impl View for Progress {
    type V = ProgressView;

    open spec fn view(&self) -> ProgressView {
        match *self {
            Progress::Next(test, task) => ProgressView::Next(test@, task@),
            Progress::Finished(result) => ProgressView::Finished(result),
        }
    }
}

/// One line of the script: a task, and for a transaction that reads the
/// inputs the place in the test and the inputs that must be read.
pub struct Line {
    pub task: TaskView,
    pub check: Option<(Checkpoint, u8)>,
}

/// The inputs that show the relay of `channel` on and every other off.
pub open spec fn channel_mask(channel: u8) -> u8 {
    1u8 << channel
}

/// The line that tells the device its address.
pub open spec fn address_line(destination: Seq<u8>) -> Line {
    Line { task: TaskView::Transact { code: Code::SetAddress, payload: destination }, check: None }
}

/// The line that switches the relay of `channel` on or off.
pub open spec fn relay_line(channel: u8, on: bool) -> Line {
    Line {
        task: TaskView::Transact {
            code: Code::SetOutput,
            payload: seq![channel, if on {
                1u8
            } else {
                0u8
            }],
        },
        check: None,
    }
}

/// The line that reads the inputs and holds them against `expected`.
pub open spec fn input_line(step: Checkpoint, expected: u8) -> Line {
    Line {
        task: TaskView::Transact { code: Code::ReadInput, payload: Seq::empty() },
        check: Some((step, expected)),
    }
}

/// The line that waits for relay and input to settle.
pub open spec fn settle_line() -> Line {
    Line { task: TaskView::Settle(RELAY_SETTLE_MS), check: None }
}

/// The five lines that test one channel.
pub open spec fn channel_lines(channel: u8) -> Seq<Line> {
    seq![
        relay_line(channel, true),
        settle_line(),
        input_line(Checkpoint::Channel(channel), channel_mask(channel)),
        relay_line(channel, false),
        settle_line(),
    ]
}

/// The script of the test of the device at `destination`: every task of a
/// test that runs to its end, in order.
pub open spec fn script(destination: Seq<u8>) -> Seq<Line> {
    seq![
        address_line(destination),
        relay_line(0, false),
        relay_line(1, false),
        relay_line(2, false),
        relay_line(3, false),
        input_line(Checkpoint::AllOff, 0),
    ] + channel_lines(0) + channel_lines(1) + channel_lines(2) + channel_lines(3)
}

/// What an outcome means for the line that it answers: nothing, where the
/// test can go on, or the error that ends the test.
///
/// A transaction that failed ends the test with its error. Inputs that were
/// read are held against what the line expects. An outcome that does not
/// answer the line, a reply to a wait or the end of a wait that was not asked
/// for, ends the test with an I/O error.
pub open spec fn verdict(line: Line, outcome: Outcome) -> Result<(), Error> {
    match (line.task, outcome) {
        (TaskView::Transact { .. }, Outcome::Replied(Ok(reply))) => match line.check {
            Some((step, expected)) => input_check(reply, step, expected),
            None => Ok(()),
        },
        (TaskView::Transact { .. }, Outcome::Replied(Err(error))) => Err(error),
        (TaskView::Settle(_), Outcome::Settled) => Ok(()),
        _ => Err(Error::IoError),
    }
}

/// How a test goes on after an outcome: it ends with the error that the
/// outcome means for the line last asked for; else it ends well after the last
/// line, and goes on with the next line after any other.
pub open spec fn advance(t: TestView, outcome: Outcome) -> ProgressView {
    match verdict(script(t.destination)[t.position], outcome) {
        Err(error) => ProgressView::Finished(Err(error)),
        Ok(()) => if t.position + 1 == SCRIPT_LENGTH {
            ProgressView::Finished(Ok(()))
        } else {
            ProgressView::Next(
                TestView { position: t.position + 1, ..t },
                script(t.destination)[t.position + 1].task,
            )
        },
    }
}

/// The script has 26 lines.
pub proof fn lemma_script_length(destination: Seq<u8>)
    ensures
        script(destination).len() == SCRIPT_LENGTH,
{
}

/// The line at each place of the script: the address at 0, the four relays
/// off at 1 to 4, the inputs at 5, and from 6 on five lines for each channel.
pub proof fn lemma_script_line(destination: Seq<u8>, position: int)
    requires
        0 <= position < SCRIPT_LENGTH,
    ensures
        script(destination)[position] == if position == 0 {
            address_line(destination)
        } else if position <= 4 {
            relay_line((position - 1) as u8, false)
        } else if position == 5 {
            input_line(Checkpoint::AllOff, 0)
        } else {
            channel_lines(((position - 6) / 5) as u8)[(position - 6) % 5]
        },
{
}

impl AcceptanceTest {
    /// A test under way is at a line of the script.
    #[verifier::type_invariant]
    spec fn at_a_line(self) -> bool {
        self.position < SCRIPT_LENGTH
    }

    /// The task at `position` of the script, and what it expects of the
    /// inputs where it reads them.
    fn line(destination: &[u8; 4], position: u8) -> (line: (Task, Option<(Checkpoint, u8)>))
        requires
            position < SCRIPT_LENGTH,
        ensures
            (Line { task: line.0@, check: line.1 }) == script(destination@)[position as int],
    {
        proof {
            lemma_script_line(destination@, position as int);
        }
        if position == 0 {
            let payload: Vec<u8> = vec![
                destination[0],
                destination[1],
                destination[2],
                destination[3],
            ];
            assert(payload@ =~= destination@);
            (Task::Transact { code: Code::SetAddress, payload }, None)
        } else if position <= 4 {
            let payload: Vec<u8> = vec![position - 1, 0];
            (Task::Transact { code: Code::SetOutput, payload }, None)
        } else if position == 5 {
            let payload: Vec<u8> = Vec::new();
            (Task::Transact { code: Code::ReadInput, payload }, Some((Checkpoint::AllOff, 0)))
        } else {
            let channel: u8 = (position - 6) / 5;
            let part: u8 = (position - 6) % 5;
            if part == 0 {
                let payload: Vec<u8> = vec![channel, 1];
                (Task::Transact { code: Code::SetOutput, payload }, None)
            } else if part == 1 {
                (Task::Settle(RELAY_SETTLE_MS), None)
            } else if part == 2 {
                let payload: Vec<u8> = Vec::new();
                let mask: u8 = 1u8 << channel;
                (
                    Task::Transact { code: Code::ReadInput, payload },
                    Some((Checkpoint::Channel(channel), mask)),
                )
            } else if part == 3 {
                let payload: Vec<u8> = vec![channel, 0];
                (Task::Transact { code: Code::SetOutput, payload }, None)
            } else {
                (Task::Settle(RELAY_SETTLE_MS), None)
            }
        }
    }

    /// The place in the script of the task that was asked for last.
    pub fn position(&self) -> (position: u8)
        ensures
            position == self@.position,
            position < SCRIPT_LENGTH,
    {
        proof {
            use_type_invariant(self);
        }
        self.position
    }

    /// Begins the test of the device at `destination`. The first task is the
    /// first line of the script. Without an open port nothing is begun.
    pub fn begin(connected: bool, destination: [u8; 4]) -> (start: Result<
        (AcceptanceTest, Task),
        Error,
    >)
        ensures
            !connected ==> start == Err::<(AcceptanceTest, Task), Error>(Error::NoConnection),
            connected ==> (start matches Ok(pair) && pair.0@ == (TestView {
                destination: destination@,
                position: 0,
            }) && pair.1@ == script(destination@)[0].task),
    {
        if connected {
            let (task, _) = Self::line(&destination, 0);
            Ok((AcceptanceTest { destination, position: 0 }, task))
        } else {
            Err(Error::NoConnection)
        }
    }

    /// Takes what came of the last task and says how the test goes on.
    pub fn step(self, outcome: Outcome) -> (next: Progress)
        ensures
            next@ == advance(self@, outcome),
    {
        proof {
            use_type_invariant(&self);
        }
        let (task, check) = Self::line(&self.destination, self.position);
        let verdict: Result<(), Error> = match (task, outcome) {
            (Task::Transact { .. }, Outcome::Replied(Ok(reply))) => match check {
                Some((step, expected)) => check_input(&reply, step, expected),
                None => Ok(()),
            },
            (Task::Transact { .. }, Outcome::Replied(Err(error))) => Err(error),
            (Task::Settle(_), Outcome::Settled) => Ok(()),
            _ => Err(Error::IoError),
        };
        match verdict {
            Err(error) => Progress::Finished(Err(error)),
            Ok(()) => if self.position + 1 == SCRIPT_LENGTH {
                Progress::Finished(Ok(()))
            } else {
                let (next, _) = Self::line(&self.destination, self.position + 1);
                Progress::Next(
                    AcceptanceTest { destination: self.destination, position: self.position + 1 },
                    next,
                )
            },
        }
    }
}

/// What a test has ended with after the outcomes `outcomes`, one after the
/// other, or nothing where it is still under way. Outcomes that come after its
/// end are not looked at.
pub open spec fn result_after(t: TestView, outcomes: Seq<Outcome>) -> Option<Result<(), Error>>
    decreases outcomes.len(),
{
    if outcomes.len() == 0 {
        None
    } else {
        match advance(t, outcomes[0]) {
            ProgressView::Next(next, _) => result_after(next, outcomes.skip(1)),
            ProgressView::Finished(result) => Some(result),
        }
    }
}

/// The tasks that a test asks for in the course of the outcomes `outcomes`,
/// in order. The task that was asked for before the first outcome is not among
/// them.
pub open spec fn tasks_after(t: TestView, outcomes: Seq<Outcome>) -> Seq<TaskView>
    decreases outcomes.len(),
{
    if outcomes.len() == 0 {
        Seq::empty()
    } else {
        match advance(t, outcomes[0]) {
            ProgressView::Next(next, task) => seq![task] + tasks_after(next, outcomes.skip(1)),
            ProgressView::Finished(_) => Seq::empty(),
        }
    }
}

/// The first `count` outcomes are such that the test goes on after each: the
/// outcome at `i` answers the line `i` places after that of `t` and means no
/// error for it.
pub open spec fn all_pass(t: TestView, outcomes: Seq<Outcome>, count: int) -> bool {
    forall|i: int|
        0 <= i < count ==> (#[trigger] verdict(
            script(t.destination)[t.position + i],
            outcomes[i],
        )) is Ok
}

/// `tasks` are the `count` lines of the script that follow the line of `t`.
pub open spec fn follows_script(t: TestView, tasks: Seq<TaskView>, count: int) -> bool {
    &&& tasks.len() == count
    &&& forall|j: int|
        0 <= j < count ==> #[trigger] tasks[j] == script(t.destination)[t.position + 1 + j].task
}

proof fn lemma_all_pass_shifts(t: TestView, outcomes: Seq<Outcome>, count: int)
    requires
        all_pass(t, outcomes, count),
        1 <= count <= outcomes.len(),
    ensures
        all_pass(TestView { position: t.position + 1, ..t }, outcomes.skip(1), count - 1),
{
    let next = TestView { position: t.position + 1, ..t };
    let rest = outcomes.skip(1);
    assert forall|i: int| 0 <= i < count - 1 implies (#[trigger] verdict(
        script(next.destination)[next.position + i],
        rest[i],
    )) is Ok by {
        assert(verdict(script(t.destination)[t.position + (i + 1)], outcomes[i + 1]) is Ok);
    }
}

/// The test is fail-fast: it ends at the first outcome that means an error,
/// with that error. Up to there it has asked for the lines of the script in
/// their order, none twice and none left out, and it asks for nothing after.
pub proof fn lemma_test_stops_at_first_failure(
    t: TestView,
    outcomes: Seq<Outcome>,
    failing: int,
    error: Error,
)
    requires
        0 <= t.position,
        0 <= failing < outcomes.len(),
        t.position + failing < SCRIPT_LENGTH,
        all_pass(t, outcomes, failing),
        verdict(script(t.destination)[t.position + failing], outcomes[failing]) == Err::<
            (),
            Error,
        >(error),
    ensures
        result_after(t, outcomes) == Some(Err::<(), Error>(error)),
        follows_script(t, tasks_after(t, outcomes), failing),
    decreases failing,
{
    if failing > 0 {
        let next = TestView { position: t.position + 1, ..t };
        assert(verdict(script(t.destination)[t.position + 0], outcomes[0]) is Ok);
        lemma_all_pass_shifts(t, outcomes, failing);
        lemma_test_stops_at_first_failure(next, outcomes.skip(1), failing - 1, error);
        let tasks = tasks_after(t, outcomes);
        let later = tasks_after(next, outcomes.skip(1));
        assert(tasks == seq![script(t.destination)[t.position + 1].task] + later);
        assert forall|j: int| 0 <= j < failing implies #[trigger] tasks[j] == script(
            t.destination,
        )[t.position + 1 + j].task by {
            if j > 0 {
                assert(tasks[j] == later[j - 1]);
            }
        }
    }
}

/// The test ends well once every line of the script was answered by an
/// outcome that means no error, and by then it has asked for every line after
/// the first, in order.
pub proof fn lemma_test_succeeds_when_all_pass(t: TestView, outcomes: Seq<Outcome>)
    requires
        0 <= t.position < SCRIPT_LENGTH,
        outcomes.len() >= SCRIPT_LENGTH - t.position,
        all_pass(t, outcomes, SCRIPT_LENGTH - t.position),
    ensures
        result_after(t, outcomes) == Some(Ok::<(), Error>(())),
        follows_script(t, tasks_after(t, outcomes), SCRIPT_LENGTH - t.position - 1),
    decreases SCRIPT_LENGTH - t.position,
{
    assert(verdict(script(t.destination)[t.position + 0], outcomes[0]) is Ok);
    if t.position + 1 < SCRIPT_LENGTH {
        let next = TestView { position: t.position + 1, ..t };
        lemma_all_pass_shifts(t, outcomes, SCRIPT_LENGTH - t.position);
        lemma_test_succeeds_when_all_pass(next, outcomes.skip(1));
        let tasks = tasks_after(t, outcomes);
        let later = tasks_after(next, outcomes.skip(1));
        assert(tasks == seq![script(t.destination)[t.position + 1].task] + later);
        assert forall|j: int| 0 <= j < SCRIPT_LENGTH - t.position - 1 implies #[trigger] tasks[j]
            == script(t.destination)[t.position + 1 + j].task by {
            if j > 0 {
                assert(tasks[j] == later[j - 1]);
            }
        }
    }
}

/// The test ends well only if every line of the script from that of `t` on
/// was answered by an outcome that means no error: no line is passed over,
/// and no error is forgiven.
pub proof fn lemma_success_needs_every_line(t: TestView, outcomes: Seq<Outcome>)
    requires
        0 <= t.position < SCRIPT_LENGTH,
        result_after(t, outcomes) == Some(Ok::<(), Error>(())),
    ensures
        outcomes.len() >= SCRIPT_LENGTH - t.position,
        all_pass(t, outcomes, SCRIPT_LENGTH - t.position),
    decreases outcomes.len(),
{
    if outcomes.len() > 0 {
        match advance(t, outcomes[0]) {
            ProgressView::Next(next, _) => {
                lemma_success_needs_every_line(next, outcomes.skip(1));
                assert forall|i: int| 0 <= i < SCRIPT_LENGTH - t.position implies (#[trigger] verdict(
                    script(t.destination)[t.position + i],
                    outcomes[i],
                )) is Ok by {
                    if i > 0 {
                        assert(verdict(
                            script(next.destination)[next.position + (i - 1)],
                            outcomes.skip(1)[i - 1],
                        ) is Ok);
                    }
                }
            },
            ProgressView::Finished(_) => {},
        }
    }
}

/// The inputs that each channel must show: one bit for each, from the lowest
/// on.
pub proof fn lemma_channel_masks()
    ensures
        channel_mask(0) == 0x01,
        channel_mask(1) == 0x02,
        channel_mask(2) == 0x04,
        channel_mask(3) == 0x08,
{
    assert(1u8 << 0u8 == 0x01) by (bit_vector);
    assert(1u8 << 1u8 == 0x02) by (bit_vector);
    assert(1u8 << 2u8 == 0x04) by (bit_vector);
    assert(1u8 << 3u8 == 0x08) by (bit_vector);
}

/// The place in the script of the line that reads the inputs of `channel`.
pub open spec fn check_place(channel: u8) -> int {
    8 + 5 * channel
}

/// Where the lines of each channel stand in the script: from place 6 on,
/// five for each channel, in the order of the channels.
pub proof fn lemma_channel_places(destination: Seq<u8>, channel: u8)
    requires
        channel < CHANNELS,
    ensures
        script(destination)[check_place(channel) - 2] == relay_line(channel, true),
        script(destination)[check_place(channel) - 1] == settle_line(),
        script(destination)[check_place(channel)] == input_line(
            Checkpoint::Channel(channel),
            channel_mask(channel),
        ),
        script(destination)[check_place(channel) + 1] == relay_line(channel, false),
        script(destination)[check_place(channel) + 2] == settle_line(),
{
    lemma_script_line(destination, check_place(channel) - 2);
    lemma_script_line(destination, check_place(channel) - 1);
    lemma_script_line(destination, check_place(channel));
    lemma_script_line(destination, check_place(channel) + 1);
    lemma_script_line(destination, check_place(channel) + 2);
}

/// A channel whose inputs are not as they must be ends the test at once:
/// where all went well up to the reading of the inputs of `channel` and the
/// reading gives other inputs than the channel's own bit, the test ends with a
/// verification failure that names the channel, what was expected and what
/// was read. The last task it has asked for is that reading; no task of a
/// later channel is asked for.
pub proof fn lemma_wrong_inputs_end_the_test(
    destination: Seq<u8>,
    outcomes: Seq<Outcome>,
    channel: u8,
    reply: Response,
)
    requires
        channel < CHANNELS,
        outcomes.len() > check_place(channel),
        all_pass(TestView { destination, position: 0 }, outcomes, check_place(channel)),
        outcomes[check_place(channel)] == Outcome::Replied(Ok(reply)),
        reply.data_len >= 1,
        reply.data@[0] != channel_mask(channel),
    ensures
        result_after(TestView { destination, position: 0 }, outcomes) == Some(
            Err::<(), Error>(
                Error::VerificationFailure {
                    step: Checkpoint::Channel(channel),
                    expected: channel_mask(channel),
                    actual: reply.data@[0],
                },
            ),
        ),
        follows_script(
            TestView { destination, position: 0 },
            tasks_after(TestView { destination, position: 0 }, outcomes),
            check_place(channel),
        ),
{
    let t = TestView { destination, position: 0 };
    lemma_channel_places(destination, channel);
    lemma_test_stops_at_first_failure(
        t,
        outcomes,
        check_place(channel),
        Error::VerificationFailure {
            step: Checkpoint::Channel(channel),
            expected: channel_mask(channel),
            actual: reply.data@[0],
        },
    );
}

} // verus!
