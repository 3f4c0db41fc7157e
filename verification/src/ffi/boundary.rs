//! What crosses the boundary: texts, outcomes and the message of the last
//! failure.

use crate::ffi::error::{Failure, FailureView, UdaStatus, UDA_ERR_PANIC, UDA_OK};
use crate::text::{finishes_with, holds, parts_are_found_where_they_stand};
use vstd::prelude::*;
use vstd::utf8::{decode_utf8, encode_utf8, valid_utf8};

verus! {

// ---------------------------------------------------------------------------
// Texts
// ---------------------------------------------------------------------------
/// Read bytes as UTF-8 with `String::from_utf8`: a text exactly when the bytes
/// are valid UTF-8, and then the text they encode.
#[verifier::external_body]
fn utf8_text(bytes: Vec<u8>) -> (text: Option<String>)
    ensures
        text is Some <==> valid_utf8(bytes@),
        text matches Some(t) ==> t@ == decode_utf8(bytes@),
{
    String::from_utf8(bytes).ok()
}

/// Take a text argument, from the bytes before its terminator; a null pointer
/// has none.
pub fn owned_string_from(bytes: Option<Vec<u8>>, parameter: &str) -> (res: Result<String, Failure>)
    ensures
        match bytes {
            None => res matches Err(failure) && failure@ == FailureView::InvalidArgument(
                "`"@ + parameter@ + "` must not be null"@,
            ),
            Some(b) => if valid_utf8(b@) {
                res matches Ok(text) && text@ == decode_utf8(b@)
            } else {
                res matches Err(failure) && failure@ == FailureView::InvalidArgument(
                    "`"@ + parameter@ + "` is not valid UTF-8"@,
                )
            },
        },
{
    match bytes {
        None => Err(
            Failure::InvalidArgument(
                "`".to_owned().concat(parameter).concat("` must not be null"),
            ),
        ),
        Some(bytes) => match utf8_text(bytes) {
            Some(text) => Ok(text),
            None => Err(
                Failure::InvalidArgument(
                    "`".to_owned().concat(parameter).concat("` is not valid UTF-8"),
                ),
            ),
        },
    }
}

/// Whether a byte is a terminator.
pub open spec fn holds_nul(bytes: Seq<u8>) -> bool {
    exists|i: int| 0 <= i < bytes.len() && #[trigger] bytes[i] == 0
}

/// The bytes of a text with a terminator behind them. A text that holds a
/// terminator itself has none: a caller would read it short.
pub fn c_string_from(text: &str) -> (bytes: Option<Vec<u8>>)
    ensures
        bytes is None <==> holds_nul(encode_utf8(text@)),
        bytes matches Some(b) ==> b@ == encode_utf8(text@).push(0),
{
    let mut bytes: Vec<u8> = text.as_bytes_vec();
    let mut i: usize = 0;
    while i < bytes.len()
        invariant
            i <= bytes.len(),
            bytes@ == encode_utf8(text@),
            forall|j: int| 0 <= j < i ==> bytes@[j] != 0,
        decreases bytes.len() - i,
    {
        if bytes[i] == 0 {
            return None;
        }
        i = i + 1;
    }
    bytes.push(0);
    Some(bytes)
}

/// A text that was handed out comes back as it was.
pub proof fn texts_survive_the_boundary(text: Seq<char>)
    ensures
        valid_utf8(encode_utf8(text)),
        decode_utf8(encode_utf8(text)) == text,
        encode_utf8(text).push(0).drop_last() == encode_utf8(text),
{
    vstd::utf8::encode_utf8_valid_utf8(text);
    vstd::utf8::encode_utf8_decode_utf8(text);
    assert(encode_utf8(text).push(0).drop_last() =~= encode_utf8(text));
}

// ---------------------------------------------------------------------------
// Outcomes
// ---------------------------------------------------------------------------
/// The message of the most recent failure of a thread.
#[derive(Debug)]
pub struct LastMessage {
    message: Option<String>,
}

/// What an optional text says.
pub open spec fn optional_text(text: Option<String>) -> Option<Seq<char>> {
    match text {
        Some(text) => Some(text@),
        None => None,
    }
}

impl View for LastMessage {
    type V = Option<Seq<char>>;

    closed spec fn view(&self) -> Option<Seq<char>> {
        optional_text(self.message)
    }
}

impl LastMessage {
    /// An empty slot.
    pub fn new() -> (slot: Self)
        ensures
            slot@ is None,
    {
        LastMessage { message: None }
    }

    /// Remember a message.
    pub fn set_last_message(&mut self, message: &str)
        ensures
            final(self)@ == Some(message@),
    {
        self.message = Some(message.to_owned());
    }

    /// Leave exactly this message, or none, whatever the slot held.
    pub fn leave(&mut self, message: Option<String>)
        ensures
            final(self)@ == optional_text(message),
    {
        self.message = message;
    }

    /// Take the stored message, leaving the slot empty.
    pub fn take_last_message(&mut self) -> (message: Option<String>)
        ensures
            optional_text(message) == old(self)@,
            final(self)@ is None,
    {
        self.message.take()
    }
}

/// How the body of an exported call ended.
#[derive(Debug)]
pub enum Outcome {
    /// It succeeded.
    Done,
    /// It failed.
    Failed(Failure),
    /// It panicked, with this message if the payload carries a readable one.
    Panicked(Option<String>),
}

/// The description of a panic.
pub open spec fn panic_text(message: Option<Seq<char>>) -> Seq<char> {
    match message {
        Some(text) => text,
        None => "panic payload carries no readable message"@,
    }
}

/// The status of an outcome.
pub open spec fn outcome_status(outcome: Outcome) -> UdaStatus {
    match outcome {
        Outcome::Done => UDA_OK,
        Outcome::Failed(failure) => failure@.code(),
        Outcome::Panicked(_) => UDA_ERR_PANIC,
    }
}

/// The message an outcome leaves behind, if any.
pub open spec fn outcome_message(outcome: Outcome) -> Option<Seq<char>> {
    match outcome {
        Outcome::Done => None,
        Outcome::Failed(failure) => Some(failure@.shown()),
        Outcome::Panicked(message) => Some(
            "panic contained at the FFI boundary: "@ + panic_text(optional_text(message)),
        ),
    }
}

/// Describe a panic from the message its payload carries.
pub fn panic_description(message: &Option<String>) -> (description: String)
    ensures
        description@ == panic_text(optional_text(*message)),
{
    match message {
        Some(text) => text.clone(),
        None => "panic payload carries no readable message".to_owned(),
    }
}

/// Turn an outcome into a status. A failure and a panic leave their message in
/// the slot; a success leaves the slot alone.
pub fn catch_boundary(slot: &mut LastMessage, outcome: Outcome) -> (status: UdaStatus)
    ensures
        status == outcome_status(outcome),
        final(slot)@ == (match outcome_message(outcome) {
            Some(message) => Some(message),
            None => old(slot)@,
        }),
{
    match outcome {
        Outcome::Done => UDA_OK,
        Outcome::Failed(failure) => {
            slot.set_last_message(failure.message().as_str());
            failure.status()
        },
        Outcome::Panicked(message) => {
            let text = "panic contained at the FFI boundary: ".to_owned().concat(
                panic_description(&message).as_str(),
            );
            slot.set_last_message(text.as_str());
            UDA_ERR_PANIC
        },
    }
}

/// Every call that does not succeed reports a negative status and leaves a
/// message; a call that succeeds reports neither.
pub proof fn every_failure_is_reported(outcome: Outcome)
    ensures
        outcome_status(outcome) < 0 <==> !(outcome is Done),
        outcome_message(outcome) is Some <==> !(outcome is Done),
        outcome is Panicked <==> outcome_status(outcome) == UDA_ERR_PANIC,
{
    if let Outcome::Failed(failure) = outcome {
        crate::ffi::error::failures_have_negative_codes(failure@);
    }
}

/// A call is answered 0 when it succeeded, the code of its failure when it
/// failed, and -6 when it panicked; the message it leaves is that of the failure,
/// or ends with that of the panic.
pub proof fn an_outcome_is_answered_as_it_ended(outcome: Outcome)
    ensures
        outcome is Done <==> outcome_status(outcome) == 0,
        outcome matches Outcome::Failed(failure) ==> outcome_status(outcome) == failure@.code()
            && outcome_message(outcome) == Some(failure@.shown()),
        outcome matches Outcome::Panicked(message) ==> {
            &&& outcome_status(outcome) == -6
            &&& outcome_message(outcome) is Some
            &&& message matches Some(text) ==> finishes_with(outcome_message(outcome)->0, text@)
            &&& message is None ==> finishes_with(
                outcome_message(outcome)->0,
                "panic payload carries no readable message"@,
            )
        },
        outcome is Done ==> outcome_message(outcome) is None,
{
    every_failure_is_reported(outcome);
    if let Outcome::Panicked(message) = outcome {
        parts_are_found_where_they_stand(
            "panic contained at the FFI boundary: "@,
            panic_text(optional_text(message)),
            Seq::empty(),
        );
    }
}

/// A text argument is read back from its bytes; a missing one and one that is not
/// UTF-8 are the caller's mistake, told by the name of the parameter.
pub proof fn a_text_argument_reads_back(
    bytes: Option<Vec<u8>>,
    parameter: &str,
    res: Result<String, Failure>,
    text: Seq<char>,
)
    requires
        call_ensures(owned_string_from, (bytes, parameter), res),
    ensures
        bytes is Some && bytes->0@ == encode_utf8(text) ==> (res matches Ok(read) && read@ == text),
        bytes is None ==> res is Err,
        bytes is Some && !valid_utf8(bytes->0@) ==> res is Err,
        res matches Err(failure) ==> failure@ is InvalidArgument && holds(
            failure@->InvalidArgument_0,
            parameter@,
        ),
{
    texts_survive_the_boundary(text);
    parts_are_found_where_they_stand("`"@, parameter@, "` must not be null"@);
    parts_are_found_where_they_stand("`"@, parameter@, "` is not valid UTF-8"@);
}

/// A text is handed out with one terminator, behind its bytes; one that holds a
/// terminator is not handed out.
pub proof fn a_text_is_handed_out_terminated(text: &str, bytes: Option<Vec<u8>>, i: int)
    requires
        call_ensures(c_string_from, (text,), bytes),
    ensures
        bytes is None <==> encode_utf8(text@).contains(0),
        bytes matches Some(b) ==> b@.last() == 0 && b@.drop_last() == encode_utf8(text@) && (0 <= i
            < b@.len() - 1 ==> b@[i] != 0),
{
    let plain = encode_utf8(text@);
    texts_survive_the_boundary(text@);
    if holds_nul(plain) {
        let k = choose|k: int| 0 <= k < plain.len() && #[trigger] plain[k] == 0;
        assert(plain.contains(plain[k]));
    }
    if 0 <= i < plain.len() && !holds_nul(plain) {
        assert(plain[i] != 0);
    }
}

/// A failed call leaves its message for the caller to take, once; a call that
/// succeeded leaves the message that was there.
pub proof fn a_message_is_taken_once(
    slot: &mut LastMessage,
    outcome: Outcome,
    status: UdaStatus,
    taken: &mut LastMessage,
    message: Option<String>,
)
    requires
        call_ensures(catch_boundary, (slot, outcome), status),
        *old(taken) == *final(slot),
        call_ensures(LastMessage::take_last_message, (taken,), message),
    ensures
        outcome is Done ==> status == 0 && final(slot)@ == old(slot)@,
        outcome matches Outcome::Failed(failure) ==> status == failure@.code() && message is Some
            && message->0@ == failure@.shown(),
        outcome is Panicked ==> status == -6 && message is Some,
        optional_text(message) == final(slot)@,
        final(taken)@ is None,
{
}

} // verus!
