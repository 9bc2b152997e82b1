//! The stored lines as a whole: a new line for the end of the store, and the
//! rewriting of one line in place. A line is never taken out, so the position
//! of every entry, and with it every reply, stays what it was. The present
//! time comes from the caller, as the text that the clock gave; a text that
//! is not written as a date is refused.

use vstd::prelude::*;
use crate::clock::is_timestamp;
use crate::clock::is_timestamp_char;
use crate::clock::is_timestamp_text;
use crate::clock::lemma_timestamp_by_chars;
use crate::entry::decode;
use crate::entry::encode;
use crate::entry::encode_record;
use crate::entry::lemma_decode_encode;
use crate::entry::split_reply;
use crate::entry::Record;
use crate::error::InvalidInput;
use crate::error::VentError;

verus! {

/// The message that stands in the place of a removed entry.
pub const REMOVED: &'static str = "[removed]";

/// `after` is `before` with the line at `id` replaced by `line`, and every
/// other line as it was.
pub open spec fn replaces_line(
    before: Seq<String>,
    after: Seq<String>,
    id: int,
    line: Seq<char>,
) -> bool {
    &&& 0 <= id < before.len()
    &&& after.len() == before.len()
    &&& after[id]@ == line
    &&& forall|i: int| 0 <= i < before.len() && i != id ==> after[i] == before[i]
}

/// The line to append for a message written at the time that `date` names.
///
/// Fails where `date` is not written as a date is, and only there.
pub fn new_record(date: &str, message: &str) -> (r: Result<String, VentError>)
    ensures
        match r {
            Ok(line) => is_timestamp(date@) && line@ == encode(date@, message@),
            Err(e) => e == VentError::InvalidTimestamp && !is_timestamp(date@),
        },
{
    if is_timestamp_text(date) {
        Ok(encode_record(date, message))
    } else {
        Err(VentError::InvalidTimestamp)
    }
}

/// Replaces the line at `message_id` by the line for `date` and `message`,
/// whatever `date` holds.
///
/// Fails, and changes nothing, where `message_id` names no line.
pub fn edit_with_date(
    entries: &mut Vec<String>,
    message_id: usize,
    date: &str,
    message: &str,
) -> (r: Result<(), VentError>)
    ensures
        match r {
            Ok(()) => replaces_line(
                old(entries)@,
                final(entries)@,
                message_id as int,
                encode(date@, message@),
            ),
            Err(e) => {
                &&& e == VentError::InvalidInput(InvalidInput::OutOfBoundMessageId)
                &&& message_id >= old(entries).len()
                &&& final(entries)@ == old(entries)@
            },
        },
{
    if message_id < entries.len() {
        entries[message_id] = encode_record(date, message);
        Ok(())
    } else {
        Err(VentError::InvalidInput(InvalidInput::OutOfBoundMessageId))
    }
}

/// Why an edit at the time that `date` names is refused, if it is: first for
/// a `date` that is not written as a date is, then for a position that names
/// none of the `len` lines.
pub open spec fn edit_refusal(len: nat, message_id: usize, date: Seq<char>) -> Option<VentError> {
    if !is_timestamp(date) {
        Some(VentError::InvalidTimestamp)
    } else if message_id >= len {
        Some(VentError::InvalidInput(InvalidInput::OutOfBoundMessageId))
    } else {
        None
    }
}

/// Replaces the line at `message_id` by the line for `message`, written at
/// the time that `date` names.
///
/// Fails, and changes nothing, where `date` is not written as a date is or
/// `message_id` names no line.
pub fn edit(entries: &mut Vec<String>, message_id: usize, date: &str, message: &str) -> (r: Result<
    (),
    VentError,
>)
    ensures
        match r {
            Ok(()) => {
                &&& edit_refusal(old(entries)@.len(), message_id, date@) is None
                &&& replaces_line(
                    old(entries)@,
                    final(entries)@,
                    message_id as int,
                    encode(date@, message@),
                )
            },
            Err(e) => {
                &&& edit_refusal(old(entries)@.len(), message_id, date@) == Some(e)
                &&& final(entries)@ == old(entries)@
            },
        },
{
    if is_timestamp_text(date) {
        edit_with_date(entries, message_id, date, message)
    } else {
        Err(VentError::InvalidTimestamp)
    }
}

/// Removes the entry at `message_id` at the time that `date` names: its line
/// stays, with that date and the message `[removed]`.
///
/// Fails, and changes nothing, where `date` is not written as a date is or
/// `message_id` names no line.
pub fn remove(entries: &mut Vec<String>, message_id: usize, date: &str) -> (r: Result<
    (),
    VentError,
>)
    ensures
        match r {
            Ok(()) => {
                &&& edit_refusal(old(entries)@.len(), message_id, date@) is None
                &&& replaces_line(
                    old(entries)@,
                    final(entries)@,
                    message_id as int,
                    encode(date@, REMOVED@),
                )
            },
            Err(e) => {
                &&& edit_refusal(old(entries)@.len(), message_id, date@) == Some(e)
                &&& final(entries)@ == old(entries)@
            },
        },
{
    edit(entries, message_id, date, REMOVED)
}

/// A date holds no comma.
pub proof fn lemma_timestamp_holds_no_comma(date: Seq<char>)
    requires
        is_timestamp(date),
    ensures
        !date.contains(','),
{
    lemma_timestamp_by_chars(date);
    if date.contains(',') {
        let i = choose|i: int| 0 <= i < date.len() && date[i] == ',';
        assert(is_timestamp_char(date.len() as int, i, date[i]));
    }
}

/// What is written is read back: the line that `new_record` and `edit`
/// write for a date and a message reads back as that date and, after it,
/// what the message holds: its reply marker, where it begins with a
/// well-formed one, and the rest.
pub proof fn lemma_stamped_line_reads_back(date: Seq<char>, message: Seq<char>)
    requires
        is_timestamp(date),
    ensures
        decode(encode(date, message)) == Some(
            Record { date, reply: split_reply(message).0, message: split_reply(message).1 },
        ),
{
    lemma_timestamp_holds_no_comma(date);
    lemma_decode_encode(date, message);
}

} // verus!
