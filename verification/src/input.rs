//! What the user typed after the command: the words of a message, and the
//! position of the entry to change.

use vstd::prelude::*;
use vstd::string::StrSliceExecFns;
use vstd::string::StringExecFns;
use crate::error::InvalidInput;
use crate::error::VentError;
use crate::text::decimal;
use crate::text::parse_decimal;

verus! {

/// `c` is blank: it has Unicode's property White_Space.
pub open spec fn is_blank(c: char) -> bool {
    ||| '\u{9}' <= c <= '\u{d}'
    ||| c == ' '
    ||| c == '\u{85}'
    ||| c == '\u{a0}'
    ||| c == '\u{1680}'
    ||| '\u{2000}' <= c <= '\u{200a}'
    ||| c == '\u{2028}'
    ||| c == '\u{2029}'
    ||| c == '\u{202f}'
    ||| c == '\u{205f}'
    ||| c == '\u{3000}'
}

/// `c` ends a line: a line feed or a carriage return.
pub open spec fn is_line_end(c: char) -> bool {
    c == '\n' || c == '\r'
}

/// `s` without the blanks it begins with.
pub open spec fn trim_start(s: Seq<char>) -> Seq<char>
    decreases s.len(),
{
    if s.len() > 0 && is_blank(s.first()) {
        trim_start(s.drop_first())
    } else {
        s
    }
}

/// `s` without the blanks it ends with.
pub open spec fn trim_end(s: Seq<char>) -> Seq<char>
    decreases s.len(),
{
    if s.len() > 0 && is_blank(s.last()) {
        trim_end(s.drop_last())
    } else {
        s
    }
}

/// `s` without the blanks around it.
pub open spec fn trim(s: Seq<char>) -> Seq<char> {
    trim_end(trim_start(s))
}

/// The words in their order, with one space between each two.
pub open spec fn join_words(words: Seq<Seq<char>>) -> Seq<char>
    decreases words.len(),
{
    if words.len() == 0 {
        Seq::empty()
    } else if words.len() == 1 {
        words[0]
    } else {
        join_words(words.drop_last()) + seq![' '] + words.last()
    }
}

/// What the words of the command line make of a message: the words joined,
/// without the blanks around them, where that is not empty and holds no line
/// end.
pub open spec fn message_of(words: Seq<Seq<char>>) -> Result<Seq<char>, VentError> {
    let message = trim(join_words(words));
    if message.len() == 0 {
        Err(VentError::InvalidInput(InvalidInput::EmptyMessage))
    } else if exists|i: int| 0 <= i < message.len() && is_line_end(#[trigger] message[i]) {
        Err(VentError::InvalidInput(InvalidInput::MessageWithNewLine))
    } else {
        Ok(message)
    }
}

/// The views of the strings of `v`, in their order.
pub open spec fn texts(v: Seq<String>) -> Seq<Seq<char>> {
    v.map_values(|s: String| s@)
}

/// Tells whether `c` is blank.
pub fn is_white_space(c: char) -> (r: bool)
    ensures
        r == is_blank(c),
{
    (c >= '\u{9}' && c <= '\u{d}') || c == ' ' || c == '\u{85}' || c == '\u{a0}' || c
        == '\u{1680}' || (c >= '\u{2000}' && c <= '\u{200a}') || c == '\u{2028}' || c
        == '\u{2029}' || c == '\u{202f}' || c == '\u{205f}' || c == '\u{3000}'
}

/// Blanks at the start are the only thing that `trim_start` takes off.
proof fn lemma_trim_start_skips(s: Seq<char>, k: int)
    requires
        0 <= k <= s.len(),
        forall|j: int| 0 <= j < k ==> is_blank(#[trigger] s[j]),
        k < s.len() ==> !is_blank(s[k]),
    ensures
        trim_start(s) == s.skip(k),
    decreases k,
{
    if k == 0 {
        assert(s.skip(0) =~= s);
    } else {
        assert(is_blank(s[0]));
        let t = s.drop_first();
        assert forall|j: int| 0 <= j < k - 1 implies is_blank(#[trigger] t[j]) by {
            assert(t[j] == s[j + 1]);
        }
        lemma_trim_start_skips(t, k - 1);
        assert(t.skip(k - 1) =~= s.skip(k));
    }
}

/// Blanks at the end are the only thing that `trim_end` takes off.
proof fn lemma_trim_end_takes(s: Seq<char>, k: int)
    requires
        0 <= k <= s.len(),
        forall|j: int| k <= j < s.len() ==> is_blank(#[trigger] s[j]),
        k > 0 ==> !is_blank(s[k - 1]),
    ensures
        trim_end(s) == s.take(k),
    decreases s.len() - k,
{
    if k == s.len() {
        assert(s.take(k) =~= s);
    } else {
        assert(is_blank(s[s.len() - 1]));
        let t = s.drop_last();
        lemma_trim_end_takes(t, k);
        assert(t.take(k) =~= s.take(k));
    }
}

/// Takes the blanks off both ends of `s`.
pub fn trim_blanks(s: &str) -> (r: &str)
    ensures
        r@ == trim(s@),
{
    let n: usize = s.unicode_len();
    let mut start: usize = n;
    let mut end: usize = 0;
    let mut i: usize = 0;
    let it = s.chars();
    for c in iter: it
        invariant
            i == iter.index(),
            iter.seq() == s@,
            n == s@.len(),
            start <= n,
            end <= i,
            start < n ==> start < end && !is_blank(s@[start as int]),
            start == n ==> end == 0,
            forall|j: int| 0 <= j < i && j < start ==> is_blank(#[trigger] s@[j]),
            forall|j: int| end <= j < i ==> is_blank(#[trigger] s@[j]),
            end > 0 ==> !is_blank(s@[end - 1]),
    {
        if !is_white_space(c) {
            if start == n {
                start = i;
            }
            end = i + 1;
        }
        i = i + 1;
    }
    proof {
        if start == n {
            // Nothing but blanks: both ends take everything off.
            lemma_trim_start_skips(s@, n as int);
            assert(s@.skip(n as int).len() == 0);
            assert(trim_end(s@.skip(n as int)) == s@.skip(n as int));
            assert(s@.subrange(n as int, n as int) =~= s@.skip(n as int));
        } else {
            lemma_trim_start_skips(s@, start as int);
            let t = s@.skip(start as int);
            assert forall|j: int| end - start <= j < t.len() implies is_blank(#[trigger] t[j]) by {
                assert(t[j] == s@[j + start]);
            }
            assert(t[end - start - 1] == s@[end - 1]);
            lemma_trim_end_takes(t, end - start);
            assert(t.take(end - start) =~= s@.subrange(start as int, end as int));
        }
    }
    if start == n {
        s.substring_char(n, n)
    } else {
        s.substring_char(start, end)
    }
}

/// Tells whether `s` holds a line feed or a carriage return.
pub fn has_line_end(s: &str) -> (r: bool)
    ensures
        r == exists|i: int| 0 <= i < s@.len() && is_line_end(#[trigger] s@[i]),
{
    let it = s.chars();
    for c in iter: it
        invariant
            iter.seq() == s@,
            forall|j: int| 0 <= j < iter.index() ==> !is_line_end(#[trigger] s@[j]),
    {
        if c == '\n' || c == '\r' {
            assert(is_line_end(s@[iter.index()]));
            return true;
        }
    }
    false
}

/// Joins the words with one space between each two.
pub fn join_with_spaces(words: &Vec<String>) -> (r: String)
    ensures
        r@ == join_words(texts(words@)),
{
    let mut joined = String::new();
    let mut i: usize = 0;
    proof {
        reveal_strlit(" ");
        assert(texts(words@).take(0) =~= Seq::<Seq<char>>::empty());
    }
    while i < words.len()
        invariant
            i <= words.len(),
            joined@ == join_words(texts(words@).take(i as int)),
            " "@ == seq![' '],
        decreases words.len() - i,
    {
        proof {
            let before = texts(words@).take(i as int);
            let now = texts(words@).take(i + 1);
            assert(now.drop_last() =~= before);
            assert(now.last() == words@[i as int]@);
        }
        if i > 0 {
            joined.append(" ");
        }
        joined.append(words[i].as_str());
        proof {
            if i == 0 {
                assert(joined@ =~= words@[0]@);
            }
        }
        i = i + 1;
    }
    assert(texts(words@).take(i as int) =~= texts(words@));
    joined
}

/// Makes the message of the words that follow the command.
///
/// Fails where nothing is left once the blanks around the joined words are
/// gone, and where what is left holds a line end.
pub fn collect_message_from_args(args: &Vec<String>) -> (r: Result<String, VentError>)
    ensures
        match r {
            Ok(message) => message_of(texts(args@)) == Ok::<Seq<char>, VentError>(message@),
            Err(e) => message_of(texts(args@)) == Err::<Seq<char>, VentError>(e),
        },
{
    let joined = join_with_spaces(args);
    let message = trim_blanks(joined.as_str());
    if message.unicode_len() == 0 {
        Err(VentError::InvalidInput(InvalidInput::EmptyMessage))
    } else if has_line_end(message) {
        Err(VentError::InvalidInput(InvalidInput::MessageWithNewLine))
    } else {
        Ok(String::from_str(message))
    }
}

/// What a word means as a message ID: the position that its ASCII digits
/// spell, with one plus sign before them or none.
pub open spec fn message_id_text(word: Seq<char>) -> Option<usize> {
    if word.len() > 0 && word[0] == '+' {
        decimal(word.skip(1))
    } else {
        decimal(word)
    }
}

/// Reads a word as a message ID.
pub fn parse_message_id(word: &str) -> (r: Option<usize>)
    ensures
        r == message_id_text(word@),
{
    let n: usize = word.unicode_len();
    if n > 0 && word.get_char(0) == '+' {
        parse_decimal(word.substring_char(1, n))
    } else {
        parse_decimal(word)
    }
}

/// The position that the first word names.
pub open spec fn message_id_of(words: Seq<Seq<char>>) -> Result<usize, VentError> {
    if words.len() == 0 {
        Err(VentError::InvalidInput(InvalidInput::InvalidMessageId))
    } else {
        match message_id_text(words[0]) {
            Some(id) => Ok(id),
            None => Err(VentError::InvalidInput(InvalidInput::InvalidMessageId)),
        }
    }
}

/// Takes the first of the words that follow the command and reads it as the
/// position of an entry.
///
/// Fails where there is no word, and where the word, with or without one
/// plus sign before it, is not made of ASCII digits or spells a number too
/// large for a position. The word is taken either way.
pub fn collect_message_id_from_args(args: &mut Vec<String>) -> (r: Result<usize, VentError>)
    ensures
        r == message_id_of(texts(old(args)@)),
        old(args).len() == 0 ==> final(args)@ == old(args)@,
        old(args).len() > 0 ==> final(args)@ == old(args)@.drop_first(),
{
    if args.len() == 0 {
        return Err(VentError::InvalidInput(InvalidInput::InvalidMessageId));
    }
    let word = args.remove(0);
    assert(args@ =~= old(args)@.drop_first());
    match parse_message_id(word.as_str()) {
        Some(id) => Ok(id),
        None => Err(VentError::InvalidInput(InvalidInput::InvalidMessageId)),
    }
}

} // verus!
