//! The transaction engine: one command to the device, one reply back.
//!
//! A transaction runs in this order: what the port still holds in either
//! direction is thrown away; the line is given 20 ms to fall silent; the
//! command is written; the port is asked every 10 ms how many bytes wait,
//! until as many wait as the reply to this command has, or until more than
//! 200 ms have passed since the command was written; then that many bytes are
//! read and taken for the reply. Fewer bytes, or bytes that are no frame, are
//! a frame error.
//!
//! The engine does not touch the port. It is a state machine: it says what is
//! to be done next, the owner of the port does it and reports what came of it.
//! Nothing is tried twice: a transaction ends with a reply or with an error.

use vstd::prelude::*;
use vstd::slice::{slice_subrange, slice_to_vec};
use crate::code::{expected_response_len, reply_len, Code};
use crate::command::{
    command_frame,
    frame_command,
    lemma_command_round_trip,
    Command,
    CommandView,
    MAX_COMMAND_PAYLOAD,
};
use crate::error::Error;
use crate::response::{frame_response, Response, ResponseView};

verus! {

/// The time in milliseconds that the line is given to fall silent after the
/// port was flushed.
pub const SETTLE_MS: u64 = 20;

/// The time in milliseconds between two looks at what has arrived.
pub const POLL_MS: u64 = 10;

/// The time in milliseconds after which a reply that has not arrived is given
/// up.
pub const TIMEOUT_MS: u64 = 200;

/// What the owner of the port is asked to do.
pub enum Request {
    /// Throw away what the port holds, in both directions.
    Flush,
    /// Wait for this many milliseconds.
    Sleep(u64),
    /// Write all of these bytes.
    Write(Vec<u8>),
    /// Say how many bytes wait to be read, and how long ago the last write
    /// ended.
    Poll,
    /// Read this many bytes.
    Read(usize),
}

/// What came of the last request.
pub enum Event {
    /// The flush, the wait or the write was done.
    Done,
    /// The port failed.
    Failed,
    /// The answer to `Poll`: the number of bytes that wait, and the time in
    /// milliseconds since the write ended.
    Waiting { available: u32, elapsed_ms: u64 },
    /// The answer to `Read`: the bytes that were read.
    Received(Vec<u8>),
}

/// How far a transaction has come: the request that is under way.
#[derive(Copy, Clone, Debug, PartialEq, Eq, Structural)]
pub enum Phase {
    /// The port is being flushed.
    Flushing,
    /// The line is given time to fall silent.
    Settling,
    /// The command is being written.
    Writing,
    /// The port is asked how many bytes wait.
    Polling,
    /// Too few bytes waited; the time to the next look passes.
    Pausing,
    /// The reply is being read.
    Reading,
}

/// A transaction that is under way.
pub struct Transaction {
    phase: Phase,
    code: Code,
    frame: Vec<u8>,
}

/// A transaction after an event: it goes on with a new request, or it has
/// ended.
pub enum Step {
    Next(Transaction, Request),
    Finished(Result<Response, Error>),
}

/// A request, with the bytes to write as a sequence.
pub enum RequestView {
    Flush,
    Sleep(u64),
    Write(Seq<u8>),
    Poll,
    Read(usize),
}

/// An event, with the bytes that were read as a sequence.
pub enum EventView {
    Done,
    Failed,
    Waiting { available: u32, elapsed_ms: u64 },
    Received(Seq<u8>),
}

/// A transaction under way: its phase, the code of its command, and the
/// frame that it writes.
pub struct TransactionView {
    pub phase: Phase,
    pub code: Code,
    pub frame: Seq<u8>,
}

/// A transaction after an event, over the views of transaction, request and
/// reply.
pub enum StepView {
    Next(TransactionView, RequestView),
    Finished(Result<ResponseView, Error>),
}

impl View for Request {
    type V = RequestView;

    open spec fn view(&self) -> RequestView {
        match *self {
            Request::Flush => RequestView::Flush,
            Request::Sleep(ms) => RequestView::Sleep(ms),
            Request::Write(bytes) => RequestView::Write(bytes@),
            Request::Poll => RequestView::Poll,
            Request::Read(count) => RequestView::Read(count),
        }
    }
}

impl View for Event {
    type V = EventView;

    open spec fn view(&self) -> EventView {
        match *self {
            Event::Done => EventView::Done,
            Event::Failed => EventView::Failed,
            Event::Waiting { available, elapsed_ms } => EventView::Waiting { available, elapsed_ms },
            Event::Received(bytes) => EventView::Received(bytes@),
        }
    }
}

impl View for Transaction {
    type V = TransactionView;

    closed spec fn view(&self) -> TransactionView {
        TransactionView { phase: self.phase, code: self.code, frame: self.frame@ }
    }
}

impl View for Step {
    type V = StepView;

    open spec fn view(&self) -> StepView {
        match *self {
            Step::Next(transaction, request) => StepView::Next(transaction@, request@),
            Step::Finished(Ok(response)) => StepView::Finished(Ok(response@)),
            Step::Finished(Err(error)) => StepView::Finished(Err(error)),
        }
    }
}

impl Step {
    /// A reply that the transaction ended with is well formed.
    pub open spec fn wf(&self) -> bool {
        match *self {
            Step::Finished(Ok(response)) => response.wf(),
            _ => true,
        }
    }
}

/// What a transaction ends with once `bytes` were read where `expected` were
/// asked for: the reply that they hold, or a frame error that says how many
/// they were. Fewer bytes than were asked for are a frame error, whatever
/// they hold.
pub open spec fn outcome_of(bytes: Seq<u8>, expected: int) -> Result<ResponseView, Error> {
    if bytes.len() < expected {
        Err(Error::FrameError { received: bytes.len() as usize })
    } else {
        match frame_response(bytes) {
            Some(response) => Ok(response),
            None => Err(Error::FrameError { received: bytes.len() as usize }),
        }
    }
}

/// The frame of the command that the station sends: the source address is
/// the station's own, four zeros.
pub open spec fn station_frame(code: Code, destination: Seq<u8>, payload: Seq<u8>) -> Seq<u8> {
    command_frame(CommandView { destination, source: seq![0u8, 0u8, 0u8, 0u8], code, payload })
}

/// What the station sends is a command that a device reads as it was meant:
/// with the code, the address of the device, the station's own address and
/// the payload.
pub proof fn lemma_station_frame_is_read(code: Code, destination: Seq<u8>, payload: Seq<u8>)
    requires
        code.canonical(),
        destination.len() == 4,
        payload.len() <= MAX_COMMAND_PAYLOAD,
    ensures
        frame_command(station_frame(code, destination, payload)) == Some(
            CommandView { destination, source: seq![0u8, 0u8, 0u8, 0u8], code, payload },
        ),
{
    let command = CommandView { destination, source: seq![0u8, 0u8, 0u8, 0u8], code, payload };
    lemma_command_round_trip(command, Seq::empty());
    assert(command_frame(command) + Seq::<u8>::empty() =~= command_frame(command));
}

/// How a transaction goes on after an event.
///
/// A failed flush is passed over. A failed write, poll or read ends the
/// transaction with an I/O error, and so does every event that does not
/// answer the request that is under way.
pub open spec fn advance(t: TransactionView, e: EventView) -> StepView {
    match (t.phase, e) {
        (Phase::Flushing, EventView::Done) | (Phase::Flushing, EventView::Failed) => StepView::Next(
            TransactionView { phase: Phase::Settling, ..t },
            RequestView::Sleep(SETTLE_MS),
        ),
        (Phase::Settling, EventView::Done) => StepView::Next(
            TransactionView { phase: Phase::Writing, ..t },
            RequestView::Write(t.frame),
        ),
        (Phase::Writing, EventView::Done) => StepView::Next(
            TransactionView { phase: Phase::Polling, ..t },
            RequestView::Poll,
        ),
        (Phase::Polling, EventView::Waiting { available, elapsed_ms }) => if available
            >= reply_len(t.code) {
            StepView::Next(
                TransactionView { phase: Phase::Reading, ..t },
                RequestView::Read(reply_len(t.code) as usize),
            )
        } else if elapsed_ms > TIMEOUT_MS {
            StepView::Finished(Err(Error::Timeout))
        } else {
            StepView::Next(
                TransactionView { phase: Phase::Pausing, ..t },
                RequestView::Sleep(POLL_MS),
            )
        },
        (Phase::Pausing, EventView::Done) => StepView::Next(
            TransactionView { phase: Phase::Polling, ..t },
            RequestView::Poll,
        ),
        (Phase::Reading, EventView::Received(bytes)) => StepView::Finished(
            outcome_of(bytes, reply_len(t.code) as int),
        ),
        _ => StepView::Finished(Err(Error::IoError)),
    }
}

impl Transaction {
    /// Begins the transaction that sends a command with the given code and
    /// payload to the device at `destination`. The first request is to flush
    /// the port.
    pub fn begin(code: Code, destination: [u8; 4], payload: &[u8]) -> (start: (
        Transaction,
        Request,
    ))
        requires
            payload@.len() <= MAX_COMMAND_PAYLOAD,
        ensures
            start.0@ == (TransactionView {
                phase: Phase::Flushing,
                code,
                frame: station_frame(code, destination@, payload@),
            }),
            start.1@ == RequestView::Flush,
    {
        let source: [u8; 4] = [0, 0, 0, 0];
        let command = Command::new(code, source, destination, payload);
        let mut buffer: [u8; 256] = [0; 256];
        let len: usize = command.serialize(&mut buffer);
        let frame: Vec<u8> = slice_to_vec(slice_subrange(&buffer, 0, len));
        (Transaction { phase: Phase::Flushing, code, frame }, Request::Flush)
    }

    /// Takes what came of the last request and says how the transaction goes
    /// on.
    pub fn step(self, event: Event) -> (next: Step)
        ensures
            next.wf(),
            next@ == advance(self@, event@),
    {
        let Transaction { phase, code, frame } = self;
        match (phase, event) {
            (Phase::Flushing, Event::Done) | (Phase::Flushing, Event::Failed) => Step::Next(
                Transaction { phase: Phase::Settling, code, frame },
                Request::Sleep(SETTLE_MS),
            ),
            (Phase::Settling, Event::Done) => {
                let bytes: Vec<u8> = frame.clone();
                Step::Next(Transaction { phase: Phase::Writing, code, frame }, Request::Write(bytes))
            },
            (Phase::Writing, Event::Done) => Step::Next(
                Transaction { phase: Phase::Polling, code, frame },
                Request::Poll,
            ),
            (Phase::Polling, Event::Waiting { available, elapsed_ms }) => {
                let expected: u32 = expected_response_len(code);
                if available >= expected {
                    Step::Next(
                        Transaction { phase: Phase::Reading, code, frame },
                        Request::Read(expected as usize),
                    )
                } else if elapsed_ms > TIMEOUT_MS {
                    Step::Finished(Err(Error::Timeout))
                } else {
                    Step::Next(
                        Transaction { phase: Phase::Pausing, code, frame },
                        Request::Sleep(POLL_MS),
                    )
                }
            },
            (Phase::Pausing, Event::Done) => Step::Next(
                Transaction { phase: Phase::Polling, code, frame },
                Request::Poll,
            ),
            (Phase::Reading, Event::Received(bytes)) => Step::Finished(
                read_reply(bytes.as_slice(), expected_response_len(code) as usize),
            ),
            _ => Step::Finished(Err(Error::IoError)),
        }
    }
}

/// Takes the bytes that were read for the reply, where `expected` were asked
/// for.
pub fn read_reply(bytes: &[u8], expected: usize) -> (outcome: Result<Response, Error>)
    ensures
        match outcome {
            Ok(response) => response.wf() && outcome_of(bytes@, expected as int) == Ok::<
                ResponseView,
                Error,
            >(response@),
            Err(error) => outcome_of(bytes@, expected as int) == Err::<ResponseView, Error>(error),
        },
{
    if bytes.len() < expected {
        return Err(Error::FrameError { received: bytes.len() });
    }
    match Response::parse(bytes) {
        Some(response) => Ok(response),
        None => Err(Error::FrameError { received: bytes.len() }),
    }
}

/// What a transaction has ended with after the events `events`, one after the
/// other, or nothing where it is still under way. Events that come after its
/// end are not looked at.
pub open spec fn outcome_after(t: TransactionView, events: Seq<EventView>) -> Option<
    Result<ResponseView, Error>,
>
    decreases events.len(),
{
    if events.len() == 0 {
        None
    } else {
        match advance(t, events[0]) {
            StepView::Next(next, _) => outcome_after(next, events.skip(1)),
            StepView::Finished(outcome) => Some(outcome),
        }
    }
}

/// The number of times that the transaction asks for a write in the course
/// of the events `events`.
pub open spec fn writes_after(t: TransactionView, events: Seq<EventView>) -> nat
    decreases events.len(),
{
    if events.len() == 0 {
        0
    } else {
        match advance(t, events[0]) {
            StepView::Next(next, RequestView::Write(_)) => 1 + writes_after(next, events.skip(1)),
            StepView::Next(next, _) => writes_after(next, events.skip(1)),
            StepView::Finished(_) => 0,
        }
    }
}

/// The place of a phase in the order of a transaction. Looking and pausing
/// alternate, so they share a place.
pub open spec fn rank(phase: Phase) -> int {
    match phase {
        Phase::Flushing => 0,
        Phase::Settling => 1,
        Phase::Writing => 2,
        Phase::Polling => 3,
        Phase::Pausing => 3,
        Phase::Reading => 4,
    }
}

/// A transaction that goes on keeps its command and never falls back to an
/// earlier phase. What it asks to write is its command's frame, and it asks so
/// only when the line has settled.
pub proof fn lemma_advance_goes_forward(t: TransactionView, e: EventView)
    ensures
        match advance(t, e) {
            StepView::Next(next, request) => {
                &&& next.code == t.code
                &&& next.frame == t.frame
                &&& rank(next.phase) >= rank(t.phase)
                &&& request is Write ==> t.phase == Phase::Settling && request
                    == RequestView::Write(t.frame)
                &&& request is Read ==> request == RequestView::Read(reply_len(t.code) as usize)
            },
            StepView::Finished(outcome) => outcome is Ok ==> t.phase == Phase::Reading,
        },
{
}

/// Nothing is sent twice: whatever the port reports, a transaction asks for
/// one write at most, and for none once the command was written.
pub proof fn lemma_command_written_once(t: TransactionView, events: Seq<EventView>)
    ensures
        writes_after(t, events) <= 1,
        rank(t.phase) >= 2 ==> writes_after(t, events) == 0,
    decreases events.len(),
{
    if events.len() > 0 {
        match advance(t, events[0]) {
            StepView::Next(next, _) => {
                lemma_advance_goes_forward(t, events[0]);
                lemma_command_written_once(next, events.skip(1));
            },
            StepView::Finished(_) => {},
        }
    }
}

/// On a line that stays silent no transaction succeeds: where a reply is owed
/// and every look finds fewer bytes than it has, the transaction never asks to
/// read, and it ends, if it ends, with a timeout or an I/O error.
pub proof fn lemma_silent_line_never_succeeds(t: TransactionView, events: Seq<EventView>)
    requires
        t.phase != Phase::Reading,
        forall|i: int|
            0 <= i < events.len() ==> (#[trigger] events[i] matches EventView::Waiting {
                available,
                ..
            } ==> available < reply_len(t.code)),
    ensures
        match outcome_after(t, events) {
            None => true,
            Some(outcome) => outcome == Err::<ResponseView, Error>(Error::Timeout) || outcome
                == Err::<ResponseView, Error>(Error::IoError),
        },
    decreases events.len(),
{
    if events.len() > 0 {
        match advance(t, events[0]) {
            StepView::Next(next, _) => {
                let rest = events.skip(1);
                assert forall|i: int| 0 <= i < rest.len() implies (#[trigger] rest[i] matches EventView::Waiting {
                    available,
                    ..
                } ==> available < reply_len(next.code)) by {
                    assert(rest[i] == events[i + 1]);
                }
                lemma_silent_line_never_succeeds(next, rest);
            },
            StepView::Finished(_) => {},
        }
    }
}

/// A look that finds too few bytes more than 200 ms after the write ends the
/// transaction with a timeout; one that finds them earlier makes it wait 10 ms
/// and look again.
pub proof fn lemma_timeout_after_200_ms(t: TransactionView, available: u32, elapsed_ms: u64)
    requires
        t.phase == Phase::Polling,
        available < reply_len(t.code),
    ensures
        elapsed_ms > 200 ==> advance(t, EventView::Waiting { available, elapsed_ms })
            == StepView::Finished(Err(Error::Timeout)),
        elapsed_ms <= 200 ==> advance(t, EventView::Waiting { available, elapsed_ms })
            == StepView::Next(
            TransactionView { phase: Phase::Pausing, ..t },
            RequestView::Sleep(10),
        ),
{
}

/// What the port reports on a line that stays silent: at each of the times
/// `times`, in milliseconds since the write, a look finds nothing, and the
/// pause after it is kept.
pub open spec fn silent_looks(times: Seq<u64>) -> Seq<EventView>
    decreases times.len(),
{
    if times.len() == 0 {
        Seq::empty()
    } else {
        seq![EventView::Waiting { available: 0, elapsed_ms: times[0] }, EventView::Done]
            + silent_looks(times.skip(1))
    }
}

/// On a silent line the transaction ends with a timeout at the first look
/// later than 200 ms after the write, and goes on looking until then.
pub proof fn lemma_silent_line_times_out(t: TransactionView, times: Seq<u64>)
    requires
        t.phase == Phase::Polling,
        reply_len(t.code) > 0,
    ensures
        outcome_after(t, silent_looks(times)) == if exists|i: int|
            0 <= i < times.len() && times[i] > TIMEOUT_MS {
            Some(Err::<ResponseView, Error>(Error::Timeout))
        } else {
            None
        },
    decreases times.len(),
{
    let events = silent_looks(times);
    if times.len() > 0 && times[0] <= TIMEOUT_MS {
        // The look at times[0] finds nothing and is in time: the transaction
        // pauses, looks again, and the rest of the run decides.
        let paused = TransactionView { phase: Phase::Pausing, ..t };
        let later = times.skip(1);
        assert(outcome_after(t, events) == outcome_after(paused, events.skip(1)));
        assert(outcome_after(paused, events.skip(1)) == outcome_after(t, events.skip(1).skip(1)));
        assert(events.skip(1).skip(1) =~= silent_looks(later));
        lemma_silent_line_times_out(t, later);
        if exists|i: int| 0 <= i < times.len() && times[i] > TIMEOUT_MS {
            let i = choose|i: int| 0 <= i < times.len() && times[i] > TIMEOUT_MS;
            assert(0 <= i - 1 < later.len() && later[i - 1] > TIMEOUT_MS);
        }
        if exists|j: int| 0 <= j < later.len() && later[j] > TIMEOUT_MS {
            let j = choose|j: int| 0 <= j < later.len() && later[j] > TIMEOUT_MS;
            assert(0 <= j + 1 < times.len() && times[j + 1] > TIMEOUT_MS);
        }
    }
}

/// Looks that are 10 ms apart or more reach past 200 ms with the 22nd.
pub proof fn lemma_paused_looks_pass_the_limit(times: Seq<u64>, k: int)
    requires
        forall|i: int| 0 <= i < times.len() - 1 ==> times[i] + POLL_MS <= #[trigger] times[i + 1],
        0 <= k < times.len(),
    ensures
        times[k] >= k * POLL_MS,
        k >= 21 ==> times[k] > TIMEOUT_MS,
    decreases k,
{
    if k > 0 {
        lemma_paused_looks_pass_the_limit(times, k - 1);
        assert(times[k - 1] + POLL_MS <= times[(k - 1) + 1]);
    }
}

/// A transaction does not hang on a silent line: where the pause between two
/// looks is kept, so that they are 10 ms apart or more, it has ended with a
/// timeout after 22 looks at the latest.
pub proof fn lemma_silent_line_ends_within_22_looks(t: TransactionView, times: Seq<u64>)
    requires
        t.phase == Phase::Polling,
        reply_len(t.code) > 0,
        times.len() >= 22,
        forall|i: int| 0 <= i < times.len() - 1 ==> times[i] + POLL_MS <= #[trigger] times[i + 1],
    ensures
        outcome_after(t, silent_looks(times)) == Some(Err::<ResponseView, Error>(Error::Timeout)),
{
    lemma_paused_looks_pass_the_limit(times, 21);
    lemma_silent_line_times_out(t, times);
}

} // verus!
