//! The record format: one entry per line, the date before the first comma,
//! then an optional reply marker and the message.

use vstd::prelude::*;
use vstd::string::StrSliceExecFns;
use vstd::string::StringExecFns;
use crate::error::VentError;
use crate::text::decimal;
use crate::text::find_char;
use crate::text::first_index_or_len;
use crate::text::is_first_index;
use crate::text::lemma_first_index;
use crate::text::parse_decimal;

verus! {

/// One logged record. Its identity is its position in the store.
#[derive(Debug, PartialEq, Eq)]
pub struct Entry {
    /// The text before the first comma of the line, kept as it stands.
    pub date: String,
    /// The position of the entry that this one answers, if it answers one.
    pub reply: Option<usize>,
    /// The text that is left once the date and the marker are taken off.
    pub message: String,
}

/// What an entry holds, as plain values.
pub struct Record {
    pub date: Seq<char>,
    pub reply: Option<usize>,
    pub message: Seq<char>,
}

impl View for Entry {
    type V = Record;

    open spec fn view(&self) -> Record {
        Record { date: self.date@, reply: self.reply, message: self.message@ }
    }
}

impl Clone for Entry {
    fn clone(&self) -> (r: Self)
        ensures
            r@ == self@,
    {
        Entry { date: self.date.clone(), reply: self.reply, message: self.message.clone() }
    }
}

/// The text after the date is long enough to hold a marker and begins with `>>`.
pub open spec fn begins_marker(rest: Seq<char>) -> bool {
    rest.len() > 2 && rest[0] == '>' && rest[1] == '>'
}

/// The reply position and the message that the text after the date holds.
///
/// A marker is `>>`, then ASCII digits up to the first space or the end. The
/// message then starts at that space, which it keeps. Where the digits are
/// missing, are no digits or spell a number too large for a position, there
/// is no reply and the whole text is the message.
pub open spec fn split_reply(rest: Seq<char>) -> (Option<usize>, Seq<char>) {
    if begins_marker(rest) {
        let end = first_index_or_len(rest, ' ');
        match decimal(rest.subrange(2, end)) {
            Some(n) => (Some(n), rest.skip(end)),
            None => (None, rest),
        }
    } else {
        (None, rest)
    }
}

/// The entry that a stored line spells, or `None` where the line has no comma.
pub open spec fn decode(raw: Seq<char>) -> Option<Record> {
    if raw.contains(',') {
        let comma = first_index_or_len(raw, ',');
        let split = split_reply(raw.skip(comma + 1));
        Some(Record { date: raw.take(comma), reply: split.0, message: split.1 })
    } else {
        None
    }
}

/// The stored line for a date and a message: the two with one comma between.
pub open spec fn encode(date: Seq<char>, message: Seq<char>) -> Seq<char> {
    date + seq![','] + message
}

/// Takes the reply marker, if there is a well-formed one, off the text that
/// follows the date.
pub fn split_reply_marker(rest: &str) -> (r: (Option<usize>, &str))
    ensures
        (r.0, r.1@) == split_reply(rest@),
{
    let n: usize = rest.unicode_len();
    if n > 2 && rest.get_char(0) == '>' && rest.get_char(1) == '>' {
        let end: usize = match find_char(rest, ' ') {
            Some(i) => i,
            None => n,
        };
        proof {
            lemma_first_index(rest@, ' ');
            if end < 2 {
                assert(rest@[end as int] == ' ');
            }
        }
        match parse_decimal(rest.substring_char(2, end)) {
            Some(reply) => (Some(reply), rest.substring_char(end, n)),
            None => (None, rest),
        }
    } else {
        (None, rest)
    }
}

impl Entry {
    /// Reads one stored line.
    ///
    /// Fails only where the line has no comma. A marker that is not well formed
    /// is no error: it stays in the message.
    pub fn parse_entry(raw_entry: &str) -> (r: Result<Entry, VentError>)
        ensures
            match r {
                Ok(entry) => decode(raw_entry@) == Some(entry@),
                Err(e) => e == VentError::MalformedRecord && decode(raw_entry@) is None,
            },
    {
        let n: usize = raw_entry.unicode_len();
        let date_end: usize = match find_char(raw_entry, ',') {
            Some(i) => i,
            None => {
                return Err(VentError::MalformedRecord);
            },
        };
        proof {
            lemma_first_index(raw_entry@, ',');
        }
        let date = raw_entry.substring_char(0, date_end);
        let rest = raw_entry.substring_char(date_end + 1, n);
        let (reply, message) = split_reply_marker(rest);
        Ok(Entry { date: String::from_str(date), reply, message: String::from_str(message) })
    }

    /// Reads every stored line, in the order of the store.
    ///
    /// Fails where one of the lines has no comma, and only there.
    pub fn read_entries(raw_entries: &Vec<String>) -> (r: Result<Vec<Entry>, VentError>)
        ensures
            match r {
                Ok(entries) => {
                    &&& entries.len() == raw_entries.len()
                    &&& forall|i: int|
                        0 <= i < entries.len() ==> decode(raw_entries[i]@) == Some(
                            #[trigger] entries[i]@,
                        )
                },
                Err(e) => {
                    &&& e == VentError::MalformedRecord
                    &&& exists|i: int|
                        0 <= i < raw_entries.len() && decode(#[trigger] raw_entries[i]@) is None
                },
            },
    {
        let mut entries: Vec<Entry> = Vec::new();
        let mut i: usize = 0;
        while i < raw_entries.len()
            invariant
                i <= raw_entries.len(),
                entries.len() == i,
                forall|j: int|
                    0 <= j < i ==> decode(raw_entries[j]@) == Some(#[trigger] entries[j]@),
            decreases raw_entries.len() - i,
        {
            match Entry::parse_entry(raw_entries[i].as_str()) {
                Ok(entry) => {
                    entries.push(entry);
                },
                Err(e) => {
                    return Err(e);
                },
            }
            i = i + 1;
        }
        Ok(entries)
    }
}

/// Writes the stored line for a date and a message. A reply marker is part of
/// the message that the caller hands in: nothing is added here.
pub fn encode_record(date: &str, message: &str) -> (r: String)
    ensures
        r@ == encode(date@, message@),
{
    proof {
        reveal_strlit(",");
    }
    let line = String::from_str(date).concat(",").concat(message);
    assert(line@ =~= encode(date@, message@));
    line
}

/// Only the first comma splits, and nothing of the line is lost: the date
/// holds no comma, and the line is the date, a comma, and then the message,
/// with `>>` and the digits of the reply before it where there is a reply.
/// Where there is none, the message is all that follows the first comma,
/// whatever it begins with.
pub proof fn lemma_decode_keeps_the_line(raw: Seq<char>)
    requires
        raw.contains(','),
    ensures
        decode(raw) is Some,
        !decode(raw).unwrap().date.contains(','),
        decode(raw).unwrap().reply is None ==> raw == encode(
            decode(raw).unwrap().date,
            decode(raw).unwrap().message,
        ),
        decode(raw).unwrap().reply is Some ==> exists|digits: Seq<char>|
            #![trigger decimal(digits)]
            decimal(digits) == decode(raw).unwrap().reply && raw == encode(
                decode(raw).unwrap().date,
                seq!['>', '>'] + digits + decode(raw).unwrap().message,
            ),
{
    lemma_first_index(raw, ',');
    let comma = first_index_or_len(raw, ',');
    let entry = decode(raw).unwrap();
    let rest = raw.skip(comma + 1);
    assert(raw =~= encode(raw.take(comma), rest));
    if entry.date.contains(',') {
        let j = choose|j: int| 0 <= j < entry.date.len() && entry.date[j] == ',';
        assert(raw[j] == ',');
    }
    if entry.reply is Some {
        lemma_first_index(rest, ' ');
        let end = first_index_or_len(rest, ' ');
        if end < 2 {
            assert(rest[end] == ' ');
        }
        let digits = rest.subrange(2, end);
        assert(decimal(digits) == entry.reply);
        assert(rest =~= seq!['>', '>'] + digits + entry.message);
    }
}

/// A line written from a date without a comma and a message reads back as
/// that date and, after it, what the message holds: its reply marker, where
/// it begins with a well-formed one, and the rest.
pub proof fn lemma_decode_encode(date: Seq<char>, message: Seq<char>)
    requires
        !date.contains(','),
    ensures
        decode(encode(date, message)) == Some(
            Record { date, reply: split_reply(message).0, message: split_reply(message).1 },
        ),
{
    let line = encode(date, message);
    let at = date.len() as int;
    assert(line[at] == ',');
    assert forall|j: int| 0 <= j < at implies line[j] != ',' by {
        assert(line[j] == date[j]);
    }
    assert(is_first_index(line, ',', at));
    lemma_first_index(line, ',');
    assert(line.take(at) =~= date);
    assert(line.skip(at + 1) =~= message);
}

/// Round trip: an entry that answers no other, with a date that holds no
/// comma and a message that does not begin with a well-formed reply marker,
/// is read back from its stored line with the same date and the same message.
/// Commas and line ends inside the message do not matter to this.
pub proof fn lemma_round_trip(entry: Record)
    requires
        entry.reply is None,
        !entry.date.contains(','),
        split_reply(entry.message).0 is None,
    ensures
        decode(encode(entry.date, entry.message)) == Some(entry),
{
    lemma_decode_encode(entry.date, entry.message);
}

} // verus!
