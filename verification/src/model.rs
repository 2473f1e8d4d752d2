//! What the station shows of itself: the ports it found, the port it is
//! connected to, the journal of its last notices, and what it knows of the
//! device.

use vstd::prelude::*;
use vstd::string::{StrSliceExecFns, StringExecFns};
use crate::clock::time_of_day;
use crate::journal::{
    empty_journal,
    journal_is_full,
    journal_lines,
    journal_pop_front,
    journal_push_back,
    lines_of,
    JOURNAL_LINES,
};

verus! {

/// The address that a device has when it leaves the factory, in hexadecimal
/// digits.
pub const DEFAULT_ADDRESS: &'static str = "14030100";

/// The width to which the time of day is filled up in a line of the journal.
pub const STAMP_WIDTH: usize = 8;

/// Whether the station has a port open, and which.
#[derive(Clone)]
pub enum Connection {
    Connected(String),
    Disconnected,
}

/// The state that the station shows.
#[derive(Clone)]
pub struct Model {
    pub ports: Vec<String>,
    pub connection: Connection,
    pub messages: heapless::Deque<String, 8>,
    pub version: Option<(u8, u8, u8)>,
    pub device_address: String,
}

/// `count` spaces; none where `count` is negative.
pub open spec fn spaces(count: int) -> Seq<char> {
    Seq::new(
        if count > 0 {
            count as nat
        } else {
            0
        },
        |i: int| ' ',
    )
}

/// A line of the journal: the time of day between square brackets, filled up
/// with spaces to eight characters, then a space and the notice.
pub open spec fn journal_line(stamp: Seq<char>, notice: Seq<char>) -> Seq<char> {
    seq!['['] + stamp + spaces(STAMP_WIDTH - stamp.len()) + seq![']', ' '] + notice
}

/// The journal after `line` was added: the line stands last, and where the
/// journal was full its oldest line has gone.
pub open spec fn journal_with(lines: Seq<Seq<char>>, line: Seq<char>) -> Seq<Seq<char>> {
    if lines.len() == JOURNAL_LINES {
        lines.skip(1).push(line)
    } else {
        lines.push(line)
    }
}

/// The journal never grows past eight lines, the line added last stands last,
/// and the lines before it are those that were there, in their order, but for
/// the oldest where there was no room.
pub proof fn lemma_journal_keeps_the_latest(lines: Seq<Seq<char>>, line: Seq<char>)
    requires
        lines.len() <= JOURNAL_LINES,
    ensures
        journal_with(lines, line).len() <= JOURNAL_LINES,
        journal_with(lines, line).last() == line,
        journal_with(lines, line).drop_last() == if lines.len() == JOURNAL_LINES {
            lines.skip(1)
        } else {
            lines
        },
{
    assert(journal_with(lines, line).drop_last() =~= if lines.len() == JOURNAL_LINES {
        lines.skip(1)
    } else {
        lines
    });
}

/// Writes a line of the journal.
pub fn stamped(stamp: &str, notice: &str) -> (line: String)
    ensures
        line@ == journal_line(stamp@, notice@),
{
    proof {
        reveal_strlit("[");
        reveal_strlit(" ");
        reveal_strlit("] ");
    }
    let mut line: String = String::from_str("[");
    line.append(stamp);
    let mut width: usize = stamp.unicode_len();
    while width < STAMP_WIDTH
        invariant
            stamp@.len() <= width,
            width == stamp@.len() || width <= STAMP_WIDTH,
            line@ == seq!['['] + stamp@ + spaces(width - stamp@.len()),
            " "@ == seq![' '],
        decreases STAMP_WIDTH - width,
    {
        line.append(" ");
        width += 1;
    }
    line.append("] ");
    line.append(notice);
    line
}

impl Default for Model {
    /// The state of a station that has found no port, is connected to none
    /// and has said nothing yet.
    fn default() -> (model: Model)
        ensures
            model.ports@.len() == 0,
            model.connection is Disconnected,
            lines_of(model.messages).len() == 0,
            model.version is None,
            model.device_address@ == DEFAULT_ADDRESS@,
    {
        Model {
            ports: Vec::new(),
            connection: Connection::Disconnected,
            messages: empty_journal(),
            version: None,
            device_address: String::from_str(DEFAULT_ADDRESS),
        }
    }
}

impl Model {
    /// Whether the station has a port open.
    pub fn is_connected(self: &Self) -> (connected: bool)
        ensures
            connected == (self.connection is Connected),
    {
        match self.connection {
            Connection::Connected(_) => true,
            Connection::Disconnected => false,
        }
    }

    /// Adds a notice to the journal, under the time of day `stamp`. Where the
    /// journal is full, its oldest line makes room.
    pub fn message_at(self: &mut Self, stamp: &str, msg: String)
        ensures
            lines_of(final(self).messages) == journal_with(
                lines_of(old(self).messages),
                journal_line(stamp@, msg@),
            ),
            final(self).ports == old(self).ports,
            final(self).connection == old(self).connection,
            final(self).version == old(self).version,
            final(self).device_address == old(self).device_address,
    {
        if journal_is_full(&self.messages) {
            let _ = journal_pop_front(&mut self.messages);
        }
        let line: String = stamped(stamp, msg.as_str());
        let _ = journal_push_back(&mut self.messages, line);
    }

    /// Adds a notice to the journal, under the time of day that the clock
    /// shows; where the clock can not be read, under no time. Where the
    /// journal is full, its oldest line makes room.
    pub fn message(self: &mut Self, msg: String)
        ensures
            exists|stamp: Seq<char>|
                lines_of(final(self).messages) == journal_with(
                    lines_of(old(self).messages),
                    #[trigger] journal_line(stamp, msg@),
                ),
            final(self).ports == old(self).ports,
            final(self).connection == old(self).connection,
            final(self).version == old(self).version,
            final(self).device_address == old(self).device_address,
    {
        match time_of_day() {
            Some(stamp) => {
                self.message_at(stamp.as_str(), msg);
                assert(lines_of(self.messages) == journal_with(
                    lines_of(old(self).messages),
                    journal_line(stamp@, msg@),
                ));
            },
            None => {
                self.message_at("", msg);
                assert(lines_of(self.messages) == journal_with(
                    lines_of(old(self).messages),
                    journal_line(""@, msg@),
                ));
            },
        }
    }

    /// The lines of the journal, oldest first.
    pub fn lines(self: &Self) -> (lines: Vec<String>)
        ensures
            lines@.len() == lines_of(self.messages).len(),
            forall|i: int|
                0 <= i < lines@.len() ==> (#[trigger] lines@[i])@ == lines_of(self.messages)[i],
    {
        journal_lines(&self.messages)
    }
}

} // verus!
