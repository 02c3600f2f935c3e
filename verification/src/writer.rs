//! The writing side of the log console: a byte sink that gathers what is
//! written into a pending line and hands finished lines to the channel.

use crate::channel::{decode_lossy, send_line, utf8_lossy};
use std::io::Write;
use std::sync::mpsc::Sender;
use vstd::prelude::*;

verus! {

/// The byte that ends a line.
pub const NEWLINE: u8 = 10;

/// `text` without its last character where that is a newline: at most one
/// newline is taken off.
pub open spec fn without_newline(text: Seq<char>) -> Seq<char> {
    if text.len() > 0 && text.last() == '\n' {
        text.drop_last()
    } else {
        text
    }
}

/// Whether `bytes` holds a newline anywhere.
pub fn has_newline(bytes: &[u8]) -> (found: bool)
    ensures
        found == bytes@.contains(NEWLINE),
{
    let mut i: usize = 0;
    while i < bytes.len()
        invariant
            i <= bytes@.len(),
            forall|j: int| 0 <= j < i ==> bytes@[j] != NEWLINE,
        decreases bytes@.len() - i,
    {
        if bytes[i] == NEWLINE {
            return true;
        }
        i += 1;
    }
    false
}

/// A copy of `text` without one trailing newline.
pub fn strip_newline(text: &str) -> (line: String)
    ensures
        line@ == without_newline(text@),
{
    let n: usize = text.unicode_len();
    if n > 0 && text.get_char(n - 1) == '\n' {
        text.substring_char(0, n - 1).to_owned()
    } else {
        text.to_owned()
    }
}

/// What a [`LogWriter`] stands for in contracts.
#[verifier::ext_equal]
pub struct Sink {
    /// The text written through the handle since its last line was handed
    /// over.
    pub pending: Seq<char>,
    /// The lines that the handle has handed to the channel so far, oldest
    /// first, whether or not a console was there to receive them.
    pub emitted: Seq<Seq<char>>,
}

impl Sink {
    /// A handle through which nothing was written yet.
    pub open spec fn fresh() -> Sink {
        Sink { pending: Seq::empty(), emitted: Seq::empty() }
    }

    /// The handle after `text` was added to its pending line.
    pub open spec fn with_text(self, text: Seq<char>) -> Sink {
        Sink { pending: self.pending + text, emitted: self.emitted }
    }

    /// The handle after a flush: the pending line, without one trailing
    /// newline, is handed over, and nothing is pending.
    pub open spec fn flushed(self) -> Sink {
        Sink { pending: Seq::empty(), emitted: self.emitted.push(without_newline(self.pending)) }
    }

    /// The handle after a write of a chunk that decodes to `text`: the text
    /// is added, and where the chunk held a newline the handle is flushed.
    pub open spec fn written(self, text: Seq<char>, newline: bool) -> Sink {
        if newline {
            self.with_text(text).flushed()
        } else {
            self.with_text(text)
        }
    }
}

/// A handle for writing log text. Each handle gathers its own pending line;
/// all handles cloned from one another feed the same channel.
pub struct LogWriter {
    tx: Sender<String>,
    curr_msg: String,
    emitted: Ghost<Seq<Seq<char>>>,
}

impl View for LogWriter {
    type V = Sink;

    closed spec fn view(&self) -> Sink {
        Sink { pending: self.curr_msg@, emitted: self.emitted@ }
    }
}

impl LogWriter {
    /// A handle on `tx` with nothing pending.
    pub(crate) fn on(tx: Sender<String>) -> (writer: LogWriter)
        ensures
            writer@ == Sink::fresh(),
    {
        LogWriter { tx, curr_msg: String::new(), emitted: Ghost(Seq::empty()) }
    }

    /// Adds `text` to the pending line. Nothing is handed over, whatever the
    /// text holds.
    pub fn push_text(&mut self, text: &str)
        ensures
            final(self)@ == old(self)@.with_text(text@),
    {
        self.curr_msg.append(text);
    }

    /// The pending line.
    pub fn pending_text(&self) -> (text: &str)
        ensures
            text@ == self@.pending,
    {
        self.curr_msg.as_str()
    }
}

impl Write for LogWriter {
    /// Decodes `buf` leniently and adds it to the pending line; where `buf`
    /// holds a newline anywhere, the whole pending line is then handed over
    /// as by `flush`. All of `buf` is always consumed, and no error is ever
    /// returned, with or without a console at the other end.
    fn write(&mut self, buf: &[u8]) -> (written: Result<usize, std::io::Error>)
        ensures
            written matches Ok(n) && n == buf@.len(),
            final(self)@ == old(self)@.written(utf8_lossy(buf@), buf@.contains(NEWLINE)),
    {
        let text = decode_lossy(buf);
        self.push_text(text.as_str());
        if has_newline(buf) {
            let _ = self.flush();
        }
        Ok(buf.len())
    }

    /// Hands the pending line, without one trailing newline, to the channel
    /// and leaves nothing pending. The line is handed over even when it is
    /// empty. Where no console is left the line is lost, and the call
    /// succeeds all the same.
    fn flush(&mut self) -> (done: Result<(), std::io::Error>)
        ensures
            done is Ok,
            final(self)@ == old(self)@.flushed(),
    {
        let line = strip_newline(self.curr_msg.as_str());
        self.emitted = Ghost(self.emitted@.push(line@));
        let _ = send_line(&self.tx, line);
        self.curr_msg = String::new();
        Ok(())
    }
}

impl Clone for LogWriter {
    /// Another handle on the same channel, with nothing pending: a partial
    /// line stays with the handle that it was written to.
    fn clone(&self) -> (other: LogWriter)
        ensures
            other@ == Sink::fresh(),
    {
        LogWriter::on(self.tx.clone())
    }
}

/// Chunks written without a newline and then one with a newline make exactly
/// one line: their texts joined behind what was pending, without one
/// trailing newline.
pub proof fn chunks_join_into_one_line(sink: Sink, first: Seq<char>, second: Seq<char>)
    ensures
        sink.written(first, false).written(second, true) == (Sink {
            pending: Seq::empty(),
            emitted: sink.emitted.push(without_newline(sink.pending + first + second)),
        }),
{
}

/// One write hands over one line where its chunk holds a newline, however
/// many newlines that chunk holds, and none where it holds no newline.
pub proof fn one_write_one_line_at_most(sink: Sink, text: Seq<char>, newline: bool)
    ensures
        sink.written(text, newline).emitted.len() == sink.emitted.len() + if newline {
            1int
        } else {
            0int
        },
        sink.emitted.is_prefix_of(sink.written(text, newline).emitted),
{
}

} // verus!
