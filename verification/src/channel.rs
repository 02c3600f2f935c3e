//! The parts of the standard library that the log console rests on and that
//! come without a contract: the channel between writers and console, and
//! lossy UTF-8 decoding. Nothing in this file is proved; each item says what
//! is taken on trust.

use std::sync::mpsc::{Receiver, Sender};
use vstd::prelude::*;
use vstd::utf8::{decode_utf8, valid_utf8};

verus! {

/// The sending half of a `std::sync::mpsc` channel, carried as an opaque
/// value.
#[verifier::external_type_specification]
#[verifier::external_body]
#[verifier::reject_recursive_types(T)]
pub struct ExSender<T>(Sender<T>);

/// The receiving half of a `std::sync::mpsc` channel, carried as an opaque
/// value.
#[verifier::external_type_specification]
#[verifier::external_body]
#[verifier::reject_recursive_types(T)]
pub struct ExReceiver<T>(Receiver<T>);

/// `std::io::Error`, carried as an opaque value. The library never makes one;
/// the type stands in the signatures of the byte-sink operations.
#[verifier::external_type_specification]
#[verifier::external_body]
pub struct ExIoError(std::io::Error);

/// `std::sync::mpsc::channel` makes the two halves of a new channel. Nothing
/// is claimed of them.
pub assume_specification<T>[ std::sync::mpsc::channel::<T> ]() -> (halves: (Sender<T>, Receiver<T>));

/// `Sender::clone` makes another sending half of the same channel. Nothing is
/// claimed of it.
pub assume_specification<T>[ <Sender<T> as Clone>::clone ](tx: &Sender<T>) -> (other: Sender<T>);

/// `Sender::send` queues `line` without blocking and fails only when the
/// receiving half is gone. The result says whether the line was queued;
/// whether it was depends on the other end, so nothing is claimed of it.
#[verifier::external_body]
pub(crate) fn send_line(tx: &Sender<String>, line: String) -> (queued: bool) {
    tx.send(line).is_ok()
}

/// `Receiver::try_recv` takes the oldest queued line without blocking, and
/// gives an error when nothing is queued or every sender is gone: both come
/// back as `None`. Which line comes back depends on what the senders did, so
/// nothing is claimed of it.
#[verifier::external_body]
pub(crate) fn next_line(rx: &Receiver<String>) -> (line: Option<String>) {
    rx.try_recv().ok()
}

/// The text that `String::from_utf8_lossy` makes of `bytes`: the decoded
/// characters, with U+FFFD in place of each malformed sequence.
pub uninterp spec fn utf8_lossy(bytes: Seq<u8>) -> Seq<char>;

/// `String::from_utf8_lossy`, as an owned string. The result is a function of
/// the bytes alone, and well-formed UTF-8 decodes to the text that it
/// encodes.
#[verifier::external_body]
pub(crate) fn decode_lossy(bytes: &[u8]) -> (text: String)
    ensures
        text@ == utf8_lossy(bytes@),
        valid_utf8(bytes@) ==> text@ == decode_utf8(bytes@),
{
    String::from_utf8_lossy(bytes).into_owned()
}

} // verus!
