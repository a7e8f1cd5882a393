//! Small verified helpers on strings and lists of strings.

use vstd::prelude::*;
use vstd::string::{StrSliceExecFns, StringExecFns};
use crate::args::texts;

verus! {

/// Whether two strings hold the same characters.
pub fn text_eq(a: &str, b: &str) -> (same: bool)
    ensures
        same == (a@ == b@),
{
    let left = a.to_owned();
    let right = b.to_owned();
    left == right
}

/// Whether `name` occurs in `list`.
pub fn contains_text(list: &Vec<String>, name: &str) -> (found: bool)
    ensures
        found == texts(list@).contains(name@),
{
    let mut i: usize = 0;
    while i < list.len()
        invariant
            i <= list.len(),
            forall|j: int| 0 <= j < i ==> texts(list@)[j] != name@,
        decreases list.len() - i,
    {
        if text_eq(list[i].as_str(), name) {
            assert(texts(list@)[i as int] == name@);
            return true;
        }
        i += 1;
    }
    false
}

/// The parts in order, with `separator` between neighbours.
pub open spec fn joined(parts: Seq<Seq<char>>, separator: Seq<char>) -> Seq<char>
    decreases parts.len(),
{
    if parts.len() == 0 {
        Seq::empty()
    } else if parts.len() == 1 {
        parts[0]
    } else {
        joined(parts.drop_last(), separator) + separator + parts.last()
    }
}

/// Joins `parts` into one string, with `separator` between neighbours.
pub fn join(parts: &Vec<String>, separator: &str) -> (line: String)
    ensures
        line@ == joined(texts(parts@), separator@),
{
    let mut line = String::new();
    let mut i: usize = 0;
    while i < parts.len()
        invariant
            i <= parts.len(),
            line@ == joined(texts(parts@).take(i as int), separator@),
        decreases parts.len() - i,
    {
        if i > 0 {
            line.append(separator);
        }
        line.append(parts[i].as_str());
        proof {
            let done = texts(parts@).take(i as int + 1);
            assert(done.drop_last() == texts(parts@).take(i as int));
        }
        i += 1;
    }
    proof {
        assert(texts(parts@).take(parts@.len() as int) == texts(parts@));
    }
    line
}

/// Whether `text` ends with `suffix`.
pub fn ends_with(text: &str, suffix: &str) -> (yes: bool)
    ensures
        yes == suffix@.is_suffix_of(text@),
{
    let length = text.unicode_len();
    let tail_length = suffix.unicode_len();
    if tail_length > length {
        return false;
    }
    let tail = text.substring_char(length - tail_length, length);
    text_eq(tail, suffix)
}

/// `text` with every occurrence of `target` replaced by `replacement`.
pub open spec fn replaced(text: Seq<char>, target: char, replacement: Seq<char>) -> Seq<char>
    decreases text.len(),
{
    if text.len() == 0 {
        Seq::empty()
    } else {
        replaced(text.drop_last(), target, replacement) + (if text.last() == target {
            replacement
        } else {
            seq![text.last()]
        })
    }
}

/// Replaces every occurrence of the character `target` in `text` by
/// `replacement`.
pub fn replace_char(text: &str, target: char, replacement: &str) -> (out: String)
    ensures
        out@ == replaced(text@, target, replacement@),
{
    let length = text.unicode_len();
    let mut out = String::new();
    let mut i: usize = 0;
    while i < length
        invariant
            length == text@.len(),
            i <= length,
            out@ == replaced(text@.take(i as int), target, replacement@),
        decreases length - i,
    {
        if text.get_char(i) == target {
            out.append(replacement);
        } else {
            out.append(text.substring_char(i, i + 1));
        }
        proof {
            let done = text@.take(i as int + 1);
            assert(done.drop_last() == text@.take(i as int));
        }
        i += 1;
    }
    proof {
        assert(text@.take(length as int) == text@);
    }
    out
}

/// The decimal digit `d`, for `d` from 0 to 9.
pub open spec fn digit(d: int) -> Seq<char> {
    if d == 0 {
        "0"@
    } else if d == 1 {
        "1"@
    } else if d == 2 {
        "2"@
    } else if d == 3 {
        "3"@
    } else if d == 4 {
        "4"@
    } else if d == 5 {
        "5"@
    } else if d == 6 {
        "6"@
    } else if d == 7 {
        "7"@
    } else if d == 8 {
        "8"@
    } else {
        "9"@
    }
}

/// The decimal digits of a natural number, most significant first, without
/// leading zeros.
pub open spec fn natural_digits(n: nat) -> Seq<char>
    decreases n,
{
    if n < 10 {
        digit(n as int)
    } else {
        natural_digits(n / 10) + digit((n % 10) as int)
    }
}

/// The decimal form of an integer, with a minus sign in front of a negative
/// one.
pub open spec fn decimal(n: int) -> Seq<char> {
    if n < 0 {
        "-"@ + natural_digits((-n) as nat)
    } else {
        natural_digits(n as nat)
    }
}

fn digit_text(d: u64) -> (text: &'static str)
    requires
        d < 10,
    ensures
        text@ == digit(d as int),
{
    if d == 0 {
        "0"
    } else if d == 1 {
        "1"
    } else if d == 2 {
        "2"
    } else if d == 3 {
        "3"
    } else if d == 4 {
        "4"
    } else if d == 5 {
        "5"
    } else if d == 6 {
        "6"
    } else if d == 7 {
        "7"
    } else if d == 8 {
        "8"
    } else {
        "9"
    }
}

fn natural_text(n: u64) -> (text: String)
    ensures
        text@ == natural_digits(n as nat),
    decreases n,
{
    if n < 10 {
        String::from_str(digit_text(n))
    } else {
        let mut text = natural_text(n / 10);
        text.append(digit_text(n % 10));
        text
    }
}

/// Writes `n` in decimal.
pub fn decimal_text(n: i32) -> (text: String)
    ensures
        text@ == decimal(n as int),
{
    let wide: i64 = n as i64;
    if wide < 0 {
        let mut text = String::from_str("-");
        let magnitude: u64 = (-wide) as u64;
        text.append(natural_text(magnitude).as_str());
        text
    } else {
        natural_text(wide as u64)
    }
}

} // verus!
