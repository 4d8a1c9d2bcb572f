use vstd::prelude::*;
use vstd::string::*;

use crate::answer_map::AnswerMap;
use crate::text::{ident_char, ident_start, is_ident_char, is_ident_start, is_identifier, slice_of};
use crate::source::{ends_with, text_ends_with};
use crate::value::{coerce_answer, coerces_to};

verus! {

/// Why an answer file could not be turned into answers.
#[derive(Debug, PartialEq, Eq)]
pub enum AnswerConfigError {
    ParseError(String),
    MissingError,
    InvalidFileType,
    InvalidJsonAnswerFileStructure,
    InvalidYamlAnswerFileStructure,
    InvalidRhaiAnswerFileStructure,
}

/// Why a `key=value` answer did not parse.
#[derive(Debug, PartialEq, Eq, Structural)]
pub enum AnswerParseError {
    /// The text does not begin with an identifier followed by `=`.
    InvalidIdentifier,
    /// The text after `=` is neither a bare token nor a quoted string.
    InvalidValue,
}

pub open spec fn is_quote(c: char) -> bool {
    c == '"' || c == '\''
}

/// The number of leading identifier characters of `s`.
pub open spec fn word_len(s: Seq<char>) -> nat
    decreases s.len(),
{
    if s.len() == 0 || !is_ident_char(s[0]) {
        0
    } else {
        1 + word_len(s.drop_first())
    }
}

/// `s` begins with an identifier that is directly followed by `=`.
pub open spec fn has_key(s: Seq<char>) -> bool {
    let n = word_len(s);
    &&& n > 0
    &&& is_ident_start(s[0])
    &&& n < s.len()
    &&& s[n as int] == '='
}

/// The identifier in front of the first `=`.
pub open spec fn key_part(s: Seq<char>) -> Seq<char> {
    s.subrange(0, word_len(s) as int)
}

/// What follows the first `=`.
pub open spec fn value_part(s: Seq<char>) -> Seq<char> {
    s.subrange(word_len(s) as int + 1, s.len() as int)
}

/// The value that the text `v` denotes: the inside of a single- or double-quoted
/// string that holds no further quote of its kind, or a non-empty bare token that
/// does not begin with a quote.
pub open spec fn value_text(v: Seq<char>) -> Option<Seq<char>> {
    if v.len() >= 2 && is_quote(v[0]) && v[v.len() - 1] == v[0] && !v.subrange(
        1,
        v.len() - 1,
    ).contains(v[0]) {
        Some(v.subrange(1, v.len() - 1))
    } else if v.len() > 0 && !is_quote(v[0]) {
        Some(v)
    } else {
        None
    }
}

proof fn lemma_word_len(s: Seq<char>, i: int)
    requires
        0 <= i <= s.len(),
        forall|j: int| 0 <= j < i ==> is_ident_char(#[trigger] s[j]),
        i == s.len() || !is_ident_char(s[i]),
    ensures
        word_len(s) == i,
    decreases i,
{
    if i > 0 {
        let t = s.drop_first();
        assert forall|j: int| 0 <= j < i - 1 implies is_ident_char(#[trigger] t[j]) by {
            assert(t[j] == s[j + 1]);
        }
        if i - 1 < t.len() {
            assert(t[i - 1] == s[i]);
        }
        lemma_word_len(t, i - 1);
    }
}

proof fn lemma_word_len_bound(s: Seq<char>)
    ensures
        word_len(s) <= s.len(),
    decreases s.len(),
{
    if s.len() > 0 && is_ident_char(s[0]) {
        lemma_word_len_bound(s.drop_first());
    }
}

proof fn lemma_word_chars(s: Seq<char>, j: int)
    requires
        0 <= j < word_len(s),
    ensures
        is_ident_char(s[j]),
    decreases s.len(),
{
    lemma_word_len_bound(s);
    if j > 0 {
        lemma_word_chars(s.drop_first(), j - 1);
        assert(s.drop_first()[j - 1] == s[j]);
    }
}

/// The key of a parsed answer is always an identifier.
pub proof fn lemma_key_is_identifier(s: Seq<char>)
    requires
        has_key(s),
    ensures
        is_identifier(key_part(s)),
        !key_part(s).contains('='),
{
    let k = key_part(s);
    assert forall|i: int| 0 <= i < k.len() implies is_ident_char(#[trigger] k[i]) by {
        lemma_word_chars(s, i);
    }
    if k.contains('=') {
        let i = choose|i: int| 0 <= i < k.len() && k[i] == '=';
        assert(is_ident_char(k[i]));
    }
}

/// Splits `identifier=value` into the identifier and the value, with the quotes
/// of a quoted value taken off.
pub fn parse_answer_pair(input: &str) -> (r: Result<(String, String), AnswerParseError>)
    ensures
        match r {
            Ok((k, v)) => has_key(input@) && k@ == key_part(input@) && value_text(
                value_part(input@),
            ) == Some(v@),
            Err(AnswerParseError::InvalidIdentifier) => !has_key(input@),
            Err(AnswerParseError::InvalidValue) => has_key(input@) && value_text(
                value_part(input@),
            ) is None,
        },
{
    let ghost s = input@;
    let len = input.unicode_len();
    let mut n: usize = 0;
    while n < len
        invariant
            s == input@,
            len == s.len(),
            n <= len,
            forall|j: int| 0 <= j < n ==> is_ident_char(#[trigger] s[j]),
        ensures
            n == len || !is_ident_char(s[n as int]),
        decreases len - n,
    {
        if !ident_char(input.get_char(n)) {
            break;
        }
        n = n + 1;
    }
    proof {
        lemma_word_len(s, n as int);
    }
    if n == 0 || n == len || !ident_start(input.get_char(0)) || input.get_char(n) != '=' {
        return Err(AnswerParseError::InvalidIdentifier);
    }
    let key = slice_of(input, 0, n);
    let start = n + 1;
    let m = len - start;
    let ghost v = value_part(s);
    assert(v.len() == m);
    if m == 0 {
        return Err(AnswerParseError::InvalidValue);
    }
    let first = input.get_char(start);
    assert(v[0] == first);
    if m >= 2 && (first == '"' || first == '\'') && input.get_char(len - 1) == first {
        assert(v[v.len() - 1] == s[len - 1]);
        let mut i: usize = start + 1;
        while i < len - 1
            invariant
                s == input@,
                start + 1 <= i <= len - 1,
                len == s.len(),
                start == word_len(s) + 1,
                v == value_part(s),
                first == v[0],
                is_quote(first),
                has_key(s),
                v.len() >= 2,
                v[v.len() - 1] == v[0],
                forall|j: int| start + 1 <= j < i ==> s[j] != first,
            decreases len - i,
        {
            if input.get_char(i) == first {
                assert(v[i - start] == first);
                assert(v.subrange(1, v.len() - 1)[i - start - 1] == first);
                assert(v.subrange(1, v.len() - 1).contains(v[0]));
                assert(is_quote(v[0]));
                return Err(AnswerParseError::InvalidValue);
            }
            i = i + 1;
        }
        let ghost inner = v.subrange(1, v.len() - 1);
        assert(!inner.contains(first)) by {
            if inner.contains(first) {
                let j = choose|j: int| 0 <= j < inner.len() && inner[j] == first;
                assert(s[start + 1 + j] == first);
            }
        }
        let value = slice_of(input, start + 1, len - 1);
        assert(value@ =~= inner);
        return Ok((key, value));
    }
    if first == '"' || first == '\'' {
        return Err(AnswerParseError::InvalidValue);
    }
    let value = slice_of(input, start, len);
    assert(value@ =~= v);
    Ok((key, value))
}

} // verus!

verus! {

/// `t` is a well-formed `identifier=value` answer.
pub open spec fn pair_ok(t: Seq<char>) -> bool {
    has_key(t) && value_text(value_part(t)) is Some
}

/// How `t` fails to be a `identifier=value` answer.
pub open spec fn pair_error(t: Seq<char>) -> AnswerParseError {
    if !has_key(t) {
        AnswerParseError::InvalidIdentifier
    } else {
        AnswerParseError::InvalidValue
    }
}

/// No answer after the `i`-th of `args` sets the same identifier.
pub open spec fn last_for_key(args: Seq<String>, i: int, n: int) -> bool {
    forall|j: int| i < j < n ==> key_part((#[trigger] args[j])@) != key_part(args[i]@)
}

/// Turns the `--answer` arguments, in order, into answers: each value gets its
/// type, and a later answer for an identifier replaces an earlier one. Fails on
/// the first argument that does not parse, with its position.
pub fn answers_from_arguments(args: &Vec<String>) -> (r: Result<AnswerMap, (usize, AnswerParseError)>)
    ensures
        match r {
            Ok(m) => {
                &&& forall|i: int| 0 <= i < args@.len() ==> pair_ok((#[trigger] args@[i])@)
                &&& forall|k: Seq<char>|
                    m@.contains_key(k) <==> exists|i: int|
                        0 <= i < args@.len() && key_part((#[trigger] args@[i])@) == k
                &&& forall|i: int|
                    0 <= i < args@.len() && last_for_key(args@, i, args@.len() as int)
                        ==> coerces_to(
                        value_text(value_part((#[trigger] args@[i])@))->0,
                        m@[key_part(args@[i]@)],
                    )
            },
            Err((i, e)) => {
                &&& i < args@.len()
                &&& forall|j: int| 0 <= j < i ==> pair_ok((#[trigger] args@[j])@)
                &&& !pair_ok(args@[i as int]@)
                &&& e == pair_error(args@[i as int]@)
            },
        },
{
    let mut m = AnswerMap::new();
    let mut n: usize = 0;
    while n < args.len()
        invariant
            n <= args@.len(),
            forall|i: int| 0 <= i < n ==> pair_ok((#[trigger] args@[i])@),
            forall|k: Seq<char>|
                m@.contains_key(k) <==> exists|i: int|
                    0 <= i < n && key_part((#[trigger] args@[i])@) == k,
            forall|i: int|
                0 <= i < n && last_for_key(args@, i, n as int) ==> coerces_to(
                    value_text(value_part((#[trigger] args@[i])@))->0,
                    m@[key_part(args@[i]@)],
                ),
        decreases args@.len() - n,
    {
        let arg = &args[n];
        match parse_answer_pair(arg.as_str()) {
            Ok((key, text)) => {
                let value = coerce_answer(text.as_str());
                let ghost old_m = m@;
                let ghost k = key@;
                m.insert(key, value);
                proof {
                    assert(key_part(args@[n as int]@) == k);
                    assert forall|k2: Seq<char>| m@.contains_key(k2) <==> exists|i: int|
                        0 <= i < n + 1 && key_part((#[trigger] args@[i])@) == k2 by {
                        if k2 != k && m@.contains_key(k2) {
                            let i = choose|i: int| 0 <= i < n && key_part((#[trigger] args@[i])@) == k2;
                            assert(0 <= i < n + 1 && key_part(args@[i]@) == k2);
                        }
                        if exists|i: int| 0 <= i < n + 1 && key_part((#[trigger] args@[i])@) == k2 {
                            let i = choose|i: int| 0 <= i < n + 1 && key_part((#[trigger] args@[i])@) == k2;
                            if i < n {
                                assert(old_m.contains_key(k2));
                            }
                        }
                    }
                    assert forall|i: int|
                        0 <= i < n + 1 && last_for_key(args@, i, n + 1) implies coerces_to(
                        value_text(value_part((#[trigger] args@[i])@))->0,
                        m@[key_part(args@[i]@)],
                    ) by {
                        if i < n {
                            assert(key_part(args@[n as int]@) != key_part(args@[i]@));
                            assert(last_for_key(args@, i, n as int));
                        }
                    }
                }
            },
            Err(e) => {
                return Err((n, e));
            },
        }
        n = n + 1;
    }
    Ok(m)
}

} // verus!

verus! {

/// The formats an answer file can be written in.
#[derive(Debug, Clone, Copy, PartialEq, Eq, Structural)]
pub enum AnswerFileKind {
    Yaml,
    Json,
    Script,
}

/// The format of an answer file, by its extension: `.yml` or `.yaml`, `.json`,
/// or `.rhai` for a script whose value is the answers.
pub open spec fn answer_file_format(path: Seq<char>) -> Option<AnswerFileKind> {
    if ends_with(path, ".yml"@) || ends_with(path, ".yaml"@) {
        Some(AnswerFileKind::Yaml)
    } else if ends_with(path, ".json"@) {
        Some(AnswerFileKind::Json)
    } else if ends_with(path, ".rhai"@) {
        Some(AnswerFileKind::Script)
    } else {
        None
    }
}

/// Tells the format of an answer file from its name.
pub fn answer_file_kind(path: &str) -> (r: Result<AnswerFileKind, AnswerConfigError>)
    ensures
        match answer_file_format(path@) {
            Some(k) => r matches Ok(x) && x == k,
            None => r matches Err(AnswerConfigError::InvalidFileType),
        },
{
    if text_ends_with(path, ".yml") || text_ends_with(path, ".yaml") {
        Ok(AnswerFileKind::Yaml)
    } else if text_ends_with(path, ".json") {
        Ok(AnswerFileKind::Json)
    } else if text_ends_with(path, ".rhai") {
        Ok(AnswerFileKind::Script)
    } else {
        Err(AnswerConfigError::InvalidFileType)
    }
}

/// The error for an answer file whose top-level value is not a map.
pub fn structure_error(kind: AnswerFileKind) -> (r: AnswerConfigError)
    ensures
        match kind {
            AnswerFileKind::Yaml => r matches AnswerConfigError::InvalidYamlAnswerFileStructure,
            AnswerFileKind::Json => r matches AnswerConfigError::InvalidJsonAnswerFileStructure,
            AnswerFileKind::Script => r matches AnswerConfigError::InvalidRhaiAnswerFileStructure,
        },
{
    match kind {
        AnswerFileKind::Yaml => AnswerConfigError::InvalidYamlAnswerFileStructure,
        AnswerFileKind::Json => AnswerConfigError::InvalidJsonAnswerFileStructure,
        AnswerFileKind::Script => AnswerConfigError::InvalidRhaiAnswerFileStructure,
    }
}

} // verus!
