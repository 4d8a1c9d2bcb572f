use vstd::prelude::*;
use vstd::string::*;

use crate::text::same_text;

verus! {

/// A dynamically typed answer: what a driver script sees as the value of an
/// identifier.
#[derive(Debug)]
pub enum AnswerValue {
    Int(i64),
    Bool(bool),
    Str(String),
    List(Vec<AnswerValue>),
    Object(Vec<(String, AnswerValue)>),
    Unit,
}

pub open spec fn is_digit(c: char) -> bool {
    '0' <= c && c <= '9'
}

pub open spec fn all_digits(s: Seq<char>) -> bool {
    forall|i: int| 0 <= i < s.len() ==> is_digit(#[trigger] s[i])
}

/// The number that a string of decimal digits denotes.
pub open spec fn digits_value(s: Seq<char>) -> int
    decreases s.len(),
{
    if s.len() == 0 {
        0
    } else {
        digits_value(s.drop_last()) * 10 + (s.last() as int - '0' as int)
    }
}

/// The integer that `s` writes in decimal: an optional `+` or `-` followed by
/// at least one digit, and nothing else.
pub open spec fn decimal_value(s: Seq<char>) -> Option<int> {
    if s.len() > 0 && (s[0] == '+' || s[0] == '-') {
        let d = s.drop_first();
        if d.len() > 0 && all_digits(d) {
            Some(
                if s[0] == '-' {
                    -digits_value(d)
                } else {
                    digits_value(d)
                },
            )
        } else {
            None
        }
    } else if s.len() > 0 && all_digits(s) {
        Some(digits_value(s))
    } else {
        None
    }
}

/// The signed 64-bit integer that `s` writes in decimal, if it fits.
pub open spec fn i64_of(s: Seq<char>) -> Option<i64> {
    match decimal_value(s) {
        Some(v) => if i64::MIN <= v <= i64::MAX {
            Some(v as i64)
        } else {
            None
        },
        None => None,
    }
}

proof fn lemma_digits_nonneg(s: Seq<char>)
    requires
        all_digits(s),
    ensures
        digits_value(s) >= 0,
    decreases s.len(),
{
    if s.len() > 0 {
        lemma_digits_nonneg(s.drop_last());
    }
}

proof fn lemma_digits_prefix(s: Seq<char>, i: int)
    requires
        all_digits(s),
        0 <= i <= s.len(),
    ensures
        digits_value(s.subrange(0, i)) <= digits_value(s),
    decreases s.len(),
{
    if i == s.len() {
        assert(s.subrange(0, i) =~= s);
    } else {
        let t = s.drop_last();
        lemma_digits_prefix(t, i);
        assert(t.subrange(0, i) =~= s.subrange(0, i));
        lemma_digits_nonneg(t);
    }
}

/// Reads a decimal integer, as `str::parse::<i64>` does.
pub fn parse_i64(s: &str) -> (r: Option<i64>)
    ensures
        r == i64_of(s@),
{
    let ghost q = s@;
    let len = s.unicode_len();
    if len == 0 {
        return None;
    }
    let c0 = s.get_char(0);
    let signed = c0 == '+' || c0 == '-';
    let negative = c0 == '-';
    let start: usize = if signed { 1 } else { 0 };
    let ghost d = q.subrange(start as int, len as int);
    if start == len {
        assert(q.drop_first() =~= d);
        return None;
    }
    let limit: i128 = 9223372036854775808;
    let mut acc: i128 = 0;
    let mut i: usize = start;
    while i < len
        invariant
            q == s@,
            len == q.len(),
            start <= i <= len,
            len > 0,
            start == (if signed { 1usize } else { 0usize }),
            signed == (q[0] == '+' || q[0] == '-'),
            negative == (q[0] == '-'),
            d == q.subrange(start as int, len as int),
            0 <= acc <= limit,
            limit == 9223372036854775808,
            all_digits(d.subrange(0, i - start)),
            acc == digits_value(d.subrange(0, i - start)),
        decreases len - i,
    {
        let c = s.get_char(i);
        if !('0' <= c && c <= '9') {
            assert(d[i - start] == c);
            assert(!all_digits(d));
            assert(signed ==> q.drop_first() =~= d);
            assert(!signed ==> q =~= d);
            return None;
        }
        let ghost before = d.subrange(0, i - start);
        let ghost after = d.subrange(0, i - start + 1);
        assert(after.drop_last() =~= before);
        assert(after.last() == c);
        let next = acc * 10 + (c as u32 - '0' as u32) as i128;
        i = i + 1;
        assert(all_digits(after)) by {
            assert forall|j: int| 0 <= j < after.len() implies is_digit(#[trigger] after[j]) by {
                if j < before.len() {
                    assert(after[j] == before[j]);
                }
            }
        }
        if next > limit {
            proof {
                if all_digits(d) {
                    lemma_digits_prefix(d, i - start);
                }
                assert(signed ==> q.drop_first() =~= d);
                assert(!signed ==> q =~= d);
            }
            return None;
        }
        acc = next;
    }
    assert(d.subrange(0, len - start) =~= d);
    assert(signed ==> q.drop_first() =~= d);
    assert(!signed ==> q =~= d);
    if negative {
        Some((-acc) as i64)
    } else if acc == limit {
        None
    } else {
        Some(acc as i64)
    }
}

/// The typed value of a command-line answer: an integer where the text reads as
/// one, else `true` or `false`, else the text itself.
pub open spec fn coerces_to(t: Seq<char>, v: AnswerValue) -> bool {
    match i64_of(t) {
        Some(i) => v == AnswerValue::Int(i),
        None => if t == "true"@ {
            v == AnswerValue::Bool(true)
        } else if t == "false"@ {
            v == AnswerValue::Bool(false)
        } else {
            v is Str && v->Str_0@ == t
        },
    }
}

/// Gives the text of a `key=value` answer its type.
pub fn coerce_answer(t: &str) -> (r: AnswerValue)
    ensures
        coerces_to(t@, r),
{
    match parse_i64(t) {
        Some(i) => AnswerValue::Int(i),
        None => {
            if same_text(t, "true") {
                AnswerValue::Bool(true)
            } else if same_text(t, "false") {
                AnswerValue::Bool(false)
            } else {
                AnswerValue::Str(t.to_owned())
            }
        },
    }
}

} // verus!
