use mblp::checksum::crc;
use mblp::code::Code;
use mblp::engine::{read_reply, Event, Request, Step, Transaction, POLL_MS, SETTLE_MS, TIMEOUT_MS};
use mblp::error::Error;
use mblp::response::Response;

/// A port that is played by the test: it keeps a clock, records what is
/// written and hands out the bytes of `reply` once `ready_after` ms have
/// passed since the write.
struct Port {
    clock: u64,
    written_at: Option<u64>,
    written: Vec<Vec<u8>>,
    flushes: usize,
    polls: usize,
    reply: Vec<u8>,
    ready_after: u64,
    fail_write: bool,
    /// The number of bytes that the port says it holds, where that is not the
    /// length of `reply`.
    claim: Option<u32>,
}

impl Port {
    fn new(reply: Vec<u8>, ready_after: u64) -> Port {
        Port {
            clock: 0,
            written_at: None,
            written: Vec::new(),
            flushes: 0,
            polls: 0,
            reply,
            ready_after,
            fail_write: false,
            claim: None,
        }
    }

    fn perform(&mut self, request: Request) -> Event {
        match request {
            Request::Flush => {
                self.flushes += 1;
                Event::Done
            }
            Request::Sleep(ms) => {
                self.clock += ms;
                Event::Done
            }
            Request::Write(bytes) => {
                if self.fail_write {
                    return Event::Failed;
                }
                self.written.push(bytes);
                self.written_at = Some(self.clock);
                Event::Done
            }
            Request::Poll => {
                self.polls += 1;
                let elapsed_ms = self.clock - self.written_at.unwrap();
                let held = self.claim.unwrap_or(self.reply.len() as u32);
                let available = if elapsed_ms >= self.ready_after { held } else { 0 };
                Event::Waiting { available, elapsed_ms }
            }
            Request::Read(count) => Event::Received(self.reply[0..count.min(self.reply.len())].to_vec()),
        }
    }
}

fn run(port: &mut Port, code: Code, destination: [u8; 4], payload: &[u8]) -> Result<Response, Error> {
    let (mut transaction, mut request) = Transaction::begin(code, destination, payload);
    loop {
        let event = port.perform(request);
        match transaction.step(event) {
            Step::Next(next, asked) => {
                transaction = next;
                request = asked;
            }
            Step::Finished(outcome) => return outcome,
        }
    }
}

fn frame_of(reply: Response) -> Vec<u8> {
    let mut buffer = [0u8; 256];
    let len = reply.serialize(&mut buffer);
    buffer[0..len].to_vec()
}

#[test]
fn constants_are_those_of_the_protocol() {
    assert_eq!(SETTLE_MS, 20);
    assert_eq!(POLL_MS, 10);
    assert_eq!(TIMEOUT_MS, 200);
}

#[test]
fn silent_port_times_out() {
    let mut port = Port::new(Vec::new(), u64::MAX);
    let outcome = run(&mut port, Code::ReadInput, [0x14, 0x03, 0x01, 0x00], &[]);
    assert!(matches!(outcome, Err(Error::Timeout)));
    // The last look is the first one later than 200 ms after the write.
    assert_eq!(port.clock - port.written_at.unwrap(), 210);
    assert_eq!(port.clock, 230);
    assert_eq!(port.polls, 22);
    assert_eq!(port.written.len(), 1);
}

#[test]
fn transaction_flushes_settles_writes_and_reads() {
    let reply = frame_of(Response::ok([0, 0, 0, 0], [0x14, 0x03, 0x01, 0x00], &[0x05]));
    assert_eq!(reply.len(), 15);
    let mut port = Port::new(reply, 30);
    let outcome = run(&mut port, Code::ReadInput, [0x14, 0x03, 0x01, 0x00], &[]);
    let response = outcome.unwrap();
    assert_eq!(response.data_len, 1);
    assert_eq!(response.data[0], 0x05);
    assert_eq!(response.source, [0x14, 0x03, 0x01, 0x00]);
    assert!(!response.error);
    assert_eq!(port.flushes, 1);
    assert_eq!(port.written_at, Some(20));
    assert_eq!(port.polls, 4);
    assert_eq!(port.clock, 50);
    assert_eq!(port.written.len(), 1);
    let frame = &port.written[0];
    assert_eq!(
        frame.as_slice(),
        &[0x02, 0x01, 0x0F, 0x00, 0x14, 0x03, 0x01, 0x00, 0, 0, 0, 0, 0x01, 0x01, 0x2C]
    );
    assert_eq!(frame[14], crc(&frame[0..14]));
}

#[test]
fn first_request_is_a_flush_and_its_failure_is_passed_over() {
    let (transaction, request) = Transaction::begin(Code::SetOutput, [1, 2, 3, 4], &[0, 1]);
    assert!(matches!(request, Request::Flush));
    match transaction.step(Event::Failed) {
        Step::Next(_, Request::Sleep(ms)) => assert_eq!(ms, 20),
        _ => panic!("the transaction should go on with the settling wait"),
    }
}

#[test]
fn failed_write_is_an_io_error() {
    let mut port = Port::new(Vec::new(), 0);
    port.fail_write = true;
    let outcome = run(&mut port, Code::SetOutput, [1, 2, 3, 4], &[0, 1]);
    assert!(matches!(outcome, Err(Error::IoError)));
    assert_eq!(port.polls, 0);
}

#[test]
fn failed_poll_and_failed_read_are_io_errors() {
    let (t, _) = Transaction::begin(Code::SetOutput, [1, 2, 3, 4], &[0, 1]);
    let t = match t.step(Event::Done) { Step::Next(t, _) => t, _ => panic!() };
    let t = match t.step(Event::Done) { Step::Next(t, _) => t, _ => panic!() };
    let t = match t.step(Event::Done) { Step::Next(t, Request::Poll) => t, _ => panic!() };
    assert!(matches!(t.step(Event::Failed), Step::Finished(Err(Error::IoError))));

    let (t, _) = Transaction::begin(Code::SetOutput, [1, 2, 3, 4], &[0, 1]);
    let t = match t.step(Event::Done) { Step::Next(t, _) => t, _ => panic!() };
    let t = match t.step(Event::Done) { Step::Next(t, _) => t, _ => panic!() };
    let t = match t.step(Event::Done) { Step::Next(t, _) => t, _ => panic!() };
    let t = match t.step(Event::Waiting { available: 14, elapsed_ms: 0 }) {
        Step::Next(t, Request::Read(count)) => {
            assert_eq!(count, 14);
            t
        }
        _ => panic!(),
    };
    assert!(matches!(t.step(Event::Failed), Step::Finished(Err(Error::IoError))));
}

#[test]
fn event_that_answers_nothing_is_an_io_error() {
    let (t, _) = Transaction::begin(Code::ReadInput, [1, 2, 3, 4], &[]);
    assert!(matches!(t.step(Event::Received(vec![1, 2, 3])), Step::Finished(Err(Error::IoError))));
}

#[test]
fn timeout_is_strictly_after_200_ms() {
    let at_poll = || {
        let (t, _) = Transaction::begin(Code::ReadInput, [1, 2, 3, 4], &[]);
        let t = match t.step(Event::Done) { Step::Next(t, _) => t, _ => panic!() };
        let t = match t.step(Event::Done) { Step::Next(t, _) => t, _ => panic!() };
        match t.step(Event::Done) { Step::Next(t, _) => t, _ => panic!() }
    };
    match at_poll().step(Event::Waiting { available: 14, elapsed_ms: 200 }) {
        Step::Next(_, Request::Sleep(ms)) => assert_eq!(ms, 10),
        _ => panic!("at 200 ms the transaction still waits"),
    }
    assert!(matches!(
        at_poll().step(Event::Waiting { available: 14, elapsed_ms: 201 }),
        Step::Finished(Err(Error::Timeout))
    ));
    // Enough bytes are taken even when they come late.
    assert!(matches!(
        at_poll().step(Event::Waiting { available: 15, elapsed_ms: 500 }),
        Step::Next(_, Request::Read(15))
    ));
}

#[test]
fn short_or_damaged_reply_is_a_frame_error_with_its_length() {
    let mut reply = frame_of(Response::ok([0, 0, 0, 0], [1, 2, 3, 4], &[0x05]));
    assert!(read_reply(&reply, 15).is_ok());
    assert!(matches!(read_reply(&reply[0..9], 15), Err(Error::FrameError { received: 9 })));
    reply[13] ^= 0x40;
    assert!(matches!(read_reply(&reply, 15), Err(Error::FrameError { received: 15 })));
    assert!(matches!(read_reply(&[], 15), Err(Error::FrameError { received: 0 })));
    assert!(matches!(read_reply(&[], 0), Err(Error::FrameError { received: 0 })));
}

#[test]
fn fewer_bytes_than_asked_for_are_a_frame_error_even_if_they_are_a_frame() {
    // A whole reply without payload, where a reply with one byte is owed.
    let reply = frame_of(Response::ok([0, 0, 0, 0], [1, 2, 3, 4], &[]));
    assert_eq!(reply.len(), 14);
    assert!(Response::parse(&reply).is_some());
    assert!(matches!(read_reply(&reply, 15), Err(Error::FrameError { received: 14 })));
    assert!(read_reply(&reply, 14).is_ok());

    let mut port = Port::new(reply, 0);
    port.claim = Some(15);
    let outcome = run(&mut port, Code::ReadInput, [1, 2, 3, 4], &[]);
    assert!(matches!(outcome, Err(Error::FrameError { received: 14 })));
}

#[test]
fn unknown_code_reads_nothing_and_fails_with_a_frame_error() {
    let mut port = Port::new(Vec::new(), u64::MAX);
    let outcome = run(&mut port, Code::Unknown(0x12, 0x34), [1, 2, 3, 4], &[7]);
    assert!(matches!(outcome, Err(Error::FrameError { received: 0 })));
    assert_eq!(port.polls, 1);
    assert_eq!(&port.written[0][12..14], &[0x12, 0x34]);
}
