//! Character-level scanning of text: where a character first occurs, and what
//! number a run of decimal digits spells.

use vstd::prelude::*;

verus! {

/// `i` is the position of the first `c` in `s`.
pub open spec fn is_first_index(s: Seq<char>, c: char, i: int) -> bool {
    &&& 0 <= i < s.len()
    &&& s[i] == c
    &&& forall|j: int| 0 <= j < i ==> s[j] != c
}

/// The position of the first `c` in `s`, or the length of `s` where it holds none.
pub open spec fn first_index_or_len(s: Seq<char>, c: char) -> int {
    if s.contains(c) {
        choose|i: int| is_first_index(s, c, i)
    } else {
        s.len() as int
    }
}

/// A sequence that holds `c` has a first position of it, and only one.
pub proof fn lemma_first_index(s: Seq<char>, c: char)
    ensures
        s.contains(c) ==> is_first_index(s, c, first_index_or_len(s, c)),
        forall|i: int| is_first_index(s, c, i) ==> i == first_index_or_len(s, c),
        0 <= first_index_or_len(s, c) <= s.len(),
{
    if s.contains(c) {
        let k = choose|k: int| 0 <= k < s.len() && s[k] == c;
        lemma_least_index(s, c, k);
    }
    assert forall|i: int| is_first_index(s, c, i) implies i == first_index_or_len(s, c) by {
        let f = first_index_or_len(s, c);
        assert(s.contains(c));
        assert(is_first_index(s, c, f));
        if i < f {
            assert(s[i] != c);
        } else if f < i {
            assert(s[f] != c);
        }
    }
}

proof fn lemma_least_index(s: Seq<char>, c: char, k: int)
    requires
        0 <= k < s.len(),
        s[k] == c,
    ensures
        exists|i: int| is_first_index(s, c, i),
    decreases k,
{
    if forall|j: int| 0 <= j < k ==> s[j] != c {
        assert(is_first_index(s, c, k));
    } else {
        let j = choose|j: int| 0 <= j < k && s[j] == c;
        lemma_least_index(s, c, j);
    }
}

/// The position of the first `c` in `s`, counted in characters.
pub fn find_char(s: &str, c: char) -> (r: Option<usize>)
    ensures
        match r {
            Some(i) => is_first_index(s@, c, i as int),
            None => !s@.contains(c),
        },
{
    let n: usize = s.unicode_len();
    let it = s.chars();
    let mut i: usize = 0;
    for x in iter: it
        invariant
            i == iter.index(),
            iter.seq() == s@,
            n == s@.len(),
            forall|j: int| 0 <= j < i ==> s@[j] != c,
    {
        if x == c {
            return Some(i);
        }
        i = i + 1;
    }
    None
}

/// `c` is one of the ten ASCII digits.
pub open spec fn is_digit(c: char) -> bool {
    '0' <= c && c <= '9'
}

/// The number that the digit `c` stands for.
pub open spec fn digit_value(c: char) -> nat
    recommends
        is_digit(c),
{
    (c as nat - '0' as nat) as nat
}

/// Every character of `s` is an ASCII digit.
pub open spec fn all_digits(s: Seq<char>) -> bool {
    forall|i: int| 0 <= i < s.len() ==> is_digit(#[trigger] s[i])
}

/// The number that `s` spells in base ten, the first digit weighing most.
pub open spec fn decimal_value(s: Seq<char>) -> nat
    decreases s.len(),
{
    if s.len() == 0 {
        0
    } else {
        10 * decimal_value(s.drop_last()) + digit_value(s.last())
    }
}

/// What `s` means as a position: the number it spells, where it is one or
/// more ASCII digits and nothing else, and that number fits a `usize`.
pub open spec fn decimal(s: Seq<char>) -> Option<usize> {
    if s.len() > 0 && all_digits(s) && decimal_value(s) <= usize::MAX {
        Some(decimal_value(s) as usize)
    } else {
        None
    }
}

/// A number in base ten is at least the number that any of its beginnings spells.
pub proof fn lemma_decimal_value_grows(s: Seq<char>, k: int)
    requires
        0 <= k <= s.len(),
    ensures
        decimal_value(s.take(k)) <= decimal_value(s),
    decreases s.len() - k,
{
    if k == s.len() {
        assert(s.take(k) =~= s);
    } else {
        lemma_decimal_value_grows(s.drop_last(), k);
        assert(s.drop_last().take(k) =~= s.take(k));
    }
}

/// Reads `s` as a position written in ASCII digits.
pub fn parse_decimal(s: &str) -> (r: Option<usize>)
    ensures
        r == decimal(s@),
{
    let n: usize = s.unicode_len();
    if n == 0 {
        return None;
    }
    let it = s.chars();
    let mut value: usize = 0;
    let mut i: usize = 0;
    for c in iter: it
        invariant
            i == iter.index(),
            iter.seq() == s@,
            n == s@.len(),
            all_digits(s@.take(i as int)),
            value == decimal_value(s@.take(i as int)),
    {
        if !(c >= '0' && c <= '9') {
            assert(!is_digit(s@[i as int]));
            return None;
        }
        let digit: usize = (c as u32 - '0' as u32) as usize;
        proof {
            let before = s@.take(i as int);
            let now = s@.take(i + 1);
            assert(now.drop_last() =~= before);
            assert(now.last() == c);
            assert(digit == digit_value(c));
            assert(decimal_value(now) == 10 * decimal_value(before) + digit);
            lemma_decimal_value_grows(s@, i + 1);
        }
        let tenfold = match value.checked_mul(10) {
            Some(t) => t,
            None => {
                return None;
            },
        };
        value = match tenfold.checked_add(digit) {
            Some(v) => v,
            None => {
                return None;
            },
        };
        i = i + 1;
    }
    assert(s@.take(i as int) =~= s@);
    Some(value)
}

} // verus!
