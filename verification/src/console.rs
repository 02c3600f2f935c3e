//! The reading side of the log console: it takes finished lines from the
//! channel, classifies them, and retains the newest of them for display.

use crate::channel::next_line;
use crate::chars::{find_char, first_is_unique, is_first, to_chars};
use crate::severity::{classify, classify_line, default_rules, standard_rules, Rule, RuleView, Severity};
use crate::writer::{LogWriter, Sink};
use std::collections::VecDeque;
use std::sync::mpsc::Receiver;
use vstd::prelude::*;

verus! {

/// The number of messages that a console retains.
pub const MAX_MESSAGES: usize = 256;

/// One retained line and its severity. Neither changes once the message is
/// made.
pub struct Message {
    text: String,
    severity: Severity,
}

/// What a [`Message`] stands for in contracts.
pub struct Row {
    pub text: Seq<char>,
    pub severity: Severity,
}

impl View for Message {
    type V = Row;

    closed spec fn view(&self) -> Row {
        Row { text: self.text@, severity: self.severity }
    }
}

impl Clone for Message {
    fn clone(&self) -> (other: Message)
        ensures
            other@ == self@,
    {
        Message { text: self.text.clone(), severity: self.severity }
    }
}

impl Message {
    /// The text to display.
    pub fn text(&self) -> (text: &str)
        ensures
            text@ == self@.text,
    {
        self.text.as_str()
    }

    /// The severity that the line was given when it was received.
    pub fn severity(&self) -> (severity: Severity)
        ensures
            severity == self@.severity,
    {
        self.severity
    }
}

/// The rows that `messages` stand for, in the same order.
pub open spec fn views(messages: Seq<Message>) -> Seq<Row> {
    messages.map_values(|message: Message| message@)
}

/// `line` without its leading tag segment: everything up to and including the
/// first `]`, and one character more. A line without `]` is kept whole, and
/// one that ends with its first `]` leaves nothing.
pub open spec fn after_tag(line: Seq<char>) -> Seq<char> {
    if line.contains(']') {
        let at = choose|at: int| is_first(line, ']', at);
        if at + 2 <= line.len() {
            line.skip(at + 2)
        } else {
            Seq::empty()
        }
    } else {
        line
    }
}

/// The row that a received line becomes. The severity comes from the whole
/// line, whether or not the tag segment is then taken off the text.
pub open spec fn row_of(rules: Seq<RuleView>, strip: bool, line: Seq<char>) -> Row {
    Row {
        text: if strip {
            after_tag(line)
        } else {
            line
        },
        severity: classify(rules, line),
    }
}

/// The rows that a batch of received lines becomes, in the same order.
pub open spec fn rows_of(rules: Seq<RuleView>, strip: bool, lines: Seq<Seq<char>>) -> Seq<Row> {
    lines.map_values(|line: Seq<char>| row_of(rules, strip, line))
}

/// The newest `MAX_MESSAGES` of `all`, in their order; all of them where
/// there are no more than that.
pub open spec fn keep_latest(all: Seq<Row>) -> Seq<Row> {
    if all.len() > MAX_MESSAGES {
        all.skip(all.len() - MAX_MESSAGES)
    } else {
        all
    }
}

/// The part of `line` behind its leading tag segment, where `chars` are the
/// characters of `line`.
fn text_after_tag(line: &str, chars: &[char]) -> (text: String)
    requires
        chars@ == line@,
    ensures
        text@ == after_tag(line@),
{
    match find_char(chars, ']') {
        Some(at) => {
            proof {
                first_is_unique(line@, ']', at as int, choose|p: int| is_first(line@, ']', p));
            }
            let n: usize = chars.len();
            if n - at >= 2 {
                let text = line.substring_char(at + 2, n).to_owned();
                text
            } else {
                String::new()
            }
        },
        None => line.to_owned(),
    }
}

/// A copy of `line` without its leading tag segment.
pub fn strip_tag(line: &str) -> (text: String)
    ensures
        text@ == after_tag(line@),
{
    let chars = to_chars(line);
    text_after_tag(line, chars.as_slice())
}

/// The message that a received line becomes under `rules`, with the tag
/// segment taken off its text where `strip` is set.
pub fn message_of(rules: &Vec<Rule>, strip: bool, line: &str) -> (message: Message)
    ensures
        message@ == row_of(rules.deep_view(), strip, line@),
{
    let chars = to_chars(line);
    let severity = classify_line(rules, chars.as_slice());
    let text = if strip {
        text_after_tag(line, chars.as_slice())
    } else {
        line.to_owned()
    };
    Message { text, severity }
}

/// What a [`MyLogger`] stands for in contracts.
#[verifier::ext_equal]
pub struct Console {
    /// The rules by which lines are classified, in their order.
    pub rules: Seq<RuleView>,
    /// Whether the leading tag segment is taken off the text of each line.
    pub strip: bool,
    /// Every line taken in so far, oldest first.
    pub received: Seq<Seq<char>>,
    /// The retained messages, oldest first.
    pub retained: Seq<Row>,
}

impl Console {
    /// A console that has taken in nothing yet.
    pub open spec fn fresh(rules: Seq<RuleView>, strip: bool) -> Console {
        Console { rules, strip, received: Seq::empty(), retained: Seq::empty() }
    }

    /// The console after taking in `lines`, oldest first: their rows are
    /// added behind the retained ones, and the newest `MAX_MESSAGES` of all
    /// of these stay.
    pub open spec fn take_in(self, lines: Seq<Seq<char>>) -> Console {
        Console {
            rules: self.rules,
            strip: self.strip,
            received: self.received + lines,
            retained: keep_latest(self.retained + rows_of(self.rules, self.strip, lines)),
        }
    }

    /// The retained messages are the newest `MAX_MESSAGES` rows of all lines
    /// ever taken in. A new console is in this state, and taking lines in
    /// keeps it so.
    pub open spec fn holds_newest(self) -> bool {
        self.retained == keep_latest(rows_of(self.rules, self.strip, self.received))
    }
}

/// The rows `first..last` of `len` rows, cut down to the rows that exist:
/// `last` is lowered to `len`, then `first` to `last`.
pub open spec fn window(first: int, last: int, len: int) -> (int, int) {
    let hi = if last < len {
        last
    } else {
        len
    };
    let lo = if first < hi {
        first
    } else {
        hi
    };
    (lo, hi)
}

/// The console: the receiving end of the channel and the retained messages.
pub struct MyLogger {
    messages: VecDeque<Message>,
    rx: Receiver<String>,
    rules: Vec<Rule>,
    strip: bool,
    received: Ghost<Seq<Seq<char>>>,
}

impl View for MyLogger {
    type V = Console;

    closed spec fn view(&self) -> Console {
        Console {
            rules: self.rules.deep_view(),
            strip: self.strip,
            received: self.received@,
            retained: views(self.messages@),
        }
    }
}

impl MyLogger {
    /// An empty console on `rx`.
    fn on(rx: Receiver<String>, rules: Vec<Rule>, strip: bool) -> (console: MyLogger)
        ensures
            console@ == Console::fresh(rules.deep_view(), strip),
    {
        MyLogger { messages: VecDeque::new(), rx, rules, strip, received: Ghost(Seq::empty()) }
    }

    /// Takes in `lines` as if they had come through the channel, oldest
    /// first: each is classified and added, then the oldest messages are
    /// dropped until no more than `MAX_MESSAGES` are left.
    pub fn absorb(&mut self, lines: Vec<String>)
        ensures
            final(self)@ == old(self)@.take_in(lines.deep_view()),
            final(self)@.retained.len() <= MAX_MESSAGES,
            old(self)@.holds_newest() ==> final(self)@.holds_newest(),
    {
        let ghost before = views(self.messages@);
        let ghost batch = rows_of(self.rules.deep_view(), self.strip, lines.deep_view());
        let mut i: usize = 0;
        while i < lines.len()
            invariant
                i <= lines.len(),
                self.rules == old(self).rules,
                self.strip == old(self).strip,
                self.received == old(self).received,
                batch == rows_of(self.rules.deep_view(), self.strip, lines.deep_view()),
                views(self.messages@) == before + batch.take(i as int),
            decreases lines.len() - i,
        {
            let message = message_of(&self.rules, self.strip, lines[i].as_str());
            let ghost prev = self.messages@;
            self.messages.push_back(message);
            assert(views(prev.push(message)) =~= views(prev).push(message@));
            i += 1;
        }
        let ghost all = views(self.messages@);
        while self.messages.len() > MAX_MESSAGES
            invariant
                self.rules == old(self).rules,
                self.strip == old(self).strip,
                self.received == old(self).received,
                all.len() >= self.messages@.len(),
                all.len() <= MAX_MESSAGES ==> self.messages@.len() == all.len(),
                all.len() > MAX_MESSAGES ==> self.messages@.len() >= MAX_MESSAGES,
                views(self.messages@) == all.skip(all.len() - self.messages@.len()),
            decreases self.messages@.len(),
        {
            let ghost prev = self.messages@;
            let _ = self.messages.pop_front();
            assert(all.skip(all.len() - prev.len()).skip(1) =~= all.skip(all.len() - prev.len() + 1));
        }
        self.received = Ghost(self.received@ + lines.deep_view());
        proof {
            if old(self)@.holds_newest() {
                taking_in_keeps_newest(old(self)@, lines.deep_view());
            }
        }
    }

    /// Every line that is queued in the channel right now, oldest first. A
    /// vector holds no more than `usize::MAX` lines; what is queued beyond
    /// that stays queued.
    fn queued_lines(&self) -> (lines: Vec<String>) {
        let mut lines: Vec<String> = Vec::new();
        while lines.len() < usize::MAX
            decreases usize::MAX - lines.len(),
        {
            match next_line(&self.rx) {
                Some(line) => lines.push(line),
                None => break,
            }
        }
        lines
    }

    /// One frame of the console: takes every queued line out of the channel
    /// and takes it in as [`absorb`](MyLogger::absorb) does; a frame in which
    /// nothing is queued leaves the console as it is. Returns the number of
    /// retained messages, which is the number of rows to lay out.
    pub fn show_log(&mut self) -> (count: usize)
        ensures
            old(self)@.received.is_prefix_of(final(self)@.received),
            final(self)@ == old(self)@.take_in(
                final(self)@.received.skip(old(self)@.received.len() as int),
            ),
            old(self)@.holds_newest() ==> final(self)@.holds_newest(),
            old(self)@.retained.len() <= MAX_MESSAGES && final(self)@.received == old(self)@.received
                ==> final(self)@ == old(self)@,
            count == final(self)@.retained.len(),
            count <= MAX_MESSAGES,
    {
        let lines = self.queued_lines();
        self.absorb(lines);
        self.messages.len()
    }

    /// The number of retained messages.
    pub fn len(&self) -> (count: usize)
        ensures
            count == self@.retained.len(),
    {
        self.messages.len()
    }

    /// The retained message at `index`, counted from the oldest.
    pub fn message(&self, index: usize) -> (found: Option<&Message>)
        ensures
            match found {
                Some(message) => index < self@.retained.len() && message@ == self@.retained[index as int],
                None => index >= self@.retained.len(),
            },
    {
        if index < self.messages.len() {
            Some(&self.messages[index])
        } else {
            None
        }
    }

    /// Copies of the retained messages `first..last`, oldest first, for a
    /// display that lays out only the rows in view. A range that reaches past
    /// the retained messages is cut down to them.
    pub fn rows(&self, first: usize, last: usize) -> (shown: Vec<Message>)
        ensures
            views(shown@) == self@.retained.subrange(
                window(first as int, last as int, self@.retained.len() as int).0,
                window(first as int, last as int, self@.retained.len() as int).1,
            ),
    {
        let len: usize = self.messages.len();
        let hi: usize = if last < len {
            last
        } else {
            len
        };
        let lo: usize = if first < hi {
            first
        } else {
            hi
        };
        let ghost all = views(self.messages@);
        let mut shown: Vec<Message> = Vec::new();
        let mut i: usize = lo;
        while i < hi
            invariant
                lo <= i <= hi <= self.messages@.len(),
                all == views(self.messages@),
                views(shown@) == all.subrange(lo as int, i as int),
            decreases hi - i,
        {
            let message = self.messages[i].clone();
            shown.push(message);
            assert(all.subrange(lo as int, i + 1) =~= all.subrange(lo as int, i as int).push(all[i as int]));
            i += 1;
        }
        shown
    }
}

/// A console and the first writer on its channel. Lines are classified by
/// `rules`, in their order; where `strip` is set the leading tag segment is
/// taken off the text of each line, else the whole line is kept.
pub fn new_logger_with(rules: Vec<Rule>, strip: bool) -> (pair: (MyLogger, LogWriter))
    ensures
        pair.0@ == Console::fresh(rules.deep_view(), strip),
        pair.1@ == Sink::fresh(),
{
    let (tx, rx) = std::sync::mpsc::channel::<String>();
    (MyLogger::on(rx, rules, strip), LogWriter::on(tx))
}

/// A console and the first writer on its channel, with the default rules and
/// with the leading tag segment taken off each line. More writers are made by
/// cloning the one returned.
pub fn new_logger() -> (pair: (MyLogger, LogWriter))
    ensures
        pair.0@ == Console::fresh(default_rules(), true),
        pair.1@ == Sink::fresh(),
{
    new_logger_with(standard_rules(), true)
}

/// Retention keeps the newest rows in their order and drops only the oldest:
/// of more than `MAX_MESSAGES` rows exactly `MAX_MESSAGES` stay, and they are
/// the last ones.
pub proof fn retention_keeps_newest(all: Seq<Row>)
    ensures
        keep_latest(all).len() == if all.len() > MAX_MESSAGES {
            MAX_MESSAGES as nat
        } else {
            all.len()
        },
        forall|i: int|
            0 <= i < keep_latest(all).len() ==> #[trigger] keep_latest(all)[i] == all[all.len()
                - keep_latest(all).len() + i],
{
}

/// Retention can be applied at any time: the newest of what was kept earlier
/// together with later rows are the newest of all rows.
pub proof fn newest_of_newest(earlier: Seq<Row>, later: Seq<Row>)
    ensures
        keep_latest(keep_latest(earlier) + later) == keep_latest(earlier + later),
{
}

/// A new console holds the newest rows of all that it has received, which is
/// nothing.
pub proof fn fresh_console_holds_newest(rules: Seq<RuleView>, strip: bool)
    ensures
        Console::fresh(rules, strip).holds_newest(),
{
    assert(rows_of(rules, strip, Seq::<Seq<char>>::empty()) =~= Seq::<Row>::empty());
}

/// A console that holds the newest rows of all that it has received still
/// does so after taking in more lines.
pub proof fn taking_in_keeps_newest(console: Console, lines: Seq<Seq<char>>)
    requires
        console.holds_newest(),
    ensures
        console.take_in(lines).holds_newest(),
{
    let earlier = rows_of(console.rules, console.strip, console.received);
    let later = rows_of(console.rules, console.strip, lines);
    assert(rows_of(console.rules, console.strip, console.received + lines) =~= earlier + later);
    newest_of_newest(earlier, later);
}

/// Lines may be taken in frame by frame or all at once: the console ends up
/// the same.
pub proof fn frames_do_not_matter(console: Console, first: Seq<Seq<char>>, second: Seq<Seq<char>>)
    ensures
        console.take_in(first).take_in(second) == console.take_in(first + second),
{
    let a = rows_of(console.rules, console.strip, first);
    let b = rows_of(console.rules, console.strip, second);
    newest_of_newest(console.retained + a, b);
}

/// A frame in which nothing arrives changes nothing, for a console that is
/// within its bound, as every console is after construction and after every
/// frame.
pub proof fn taking_in_nothing_changes_nothing(console: Console)
    requires
        console.retained.len() <= MAX_MESSAGES,
    ensures
        console.take_in(Seq::empty()) == console,
{
}

} // verus!
