use vstd::prelude::*;
use vstd::string::*;

verus! {

/// Text for a template, marked safe where it must not be escaped again.
#[derive(Debug)]
pub struct MarkedText {
    pub text: String,
    pub safe: bool,
}

/// The serialized form: `+` for safe text, `-` for text to escape, then the
/// text itself.
pub open spec fn encoded(text: Seq<char>, safe: bool) -> Seq<char> {
    (if safe { seq!['+'] } else { seq!['-'] }) + text
}

/// What a serialized form stands for, where it is one.
pub open spec fn decoded(s: Seq<char>) -> Option<(Seq<char>, bool)> {
    if s.len() > 0 && (s[0] == '+' || s[0] == '-') {
        Some((s.drop_first(), s[0] == '+'))
    } else {
        None
    }
}

/// Serializes marked text, keeping its safety.
pub fn serialize(v: &MarkedText) -> (r: String)
    ensures
        r@ == encoded(v.text@, v.safe),
{
    let mut out = if v.safe {
        proof {
            reveal_strlit("+");
        }
        "+".to_owned()
    } else {
        proof {
            reveal_strlit("-");
        }
        "-".to_owned()
    };
    out.append(v.text.as_str());
    out
}

/// Reads marked text back; `None` where `s` is no serialized form.
pub fn deserialize(s: &str) -> (r: Option<MarkedText>)
    ensures
        match decoded(s@) {
            Some((t, safe)) => r matches Some(v) && v.text@ == t && v.safe == safe,
            None => r is None,
        },
{
    let n = s.unicode_len();
    if n == 0 {
        return None;
    }
    let c = s.get_char(0);
    if c != '+' && c != '-' {
        return None;
    }
    let rest = s.substring_char(1, n).to_owned();
    assert(rest@ =~= s@.drop_first());
    Some(MarkedText { text: rest, safe: c == '+' })
}

/// Serializing and reading back gives the same text with the same safety.
pub proof fn lemma_round_trip(text: Seq<char>, safe: bool)
    ensures
        decoded(encoded(text, safe)) == Some((text, safe)),
{
    assert(encoded(text, safe).drop_first() =~= text);
}

} // verus!
