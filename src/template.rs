use vstd::prelude::*;
use vstd::string::*;

use crate::answer_map::AnswerMap;
use crate::decimal::{int_text, int_to_text};
use crate::text::{ident_char, ident_start, is_ident_char, is_identifier, slice_of};
use crate::value::AnswerValue;

verus! {

/// Why a template could not be rendered.
#[derive(Debug, PartialEq, Eq, Structural)]
pub enum RenderError {
    /// A `{{` with no `}}` after it.
    UnclosedTag,
    /// A tag that does not hold a single identifier.
    InvalidExpression,
    /// A tag naming a list or a map, which have no text form.
    UnrenderableValue,
}

/// The position of the first `}}` at or after `k`.
pub open spec fn close_of(t: Seq<char>, k: int) -> Option<int>
    decreases t.len() - k,
{
    if k < 0 || k + 1 >= t.len() {
        None
    } else if t[k] == '}' && t[k + 1] == '}' {
        Some(k)
    } else {
        close_of(t, k + 1)
    }
}

pub open spec fn trim_left(s: Seq<char>) -> Seq<char>
    decreases s.len(),
{
    if s.len() > 0 && s[0] == ' ' {
        trim_left(s.drop_first())
    } else {
        s
    }
}

pub open spec fn trim_right(s: Seq<char>) -> Seq<char>
    decreases s.len(),
{
    if s.len() > 0 && s.last() == ' ' {
        trim_right(s.drop_last())
    } else {
        s
    }
}

/// The text between `{{` and `}}`, without the spaces around it.
pub open spec fn tag_name(s: Seq<char>) -> Seq<char> {
    trim_right(trim_left(s))
}

/// The text that an identifier renders as: a string as it is, an integer in
/// decimal, a boolean as `true` or `false`, nothing where it has no answer.
pub open spec fn shown(m: Map<Seq<char>, AnswerValue>, name: Seq<char>) -> Result<Seq<char>, RenderError> {
    if !m.contains_key(name) {
        Ok(Seq::empty())
    } else {
        match m[name] {
            AnswerValue::Str(s) => Ok(s@),
            AnswerValue::Int(i) => Ok(int_text(i as int)),
            AnswerValue::Bool(b) => Ok(if b { "true"@ } else { "false"@ }),
            AnswerValue::Unit => Ok(Seq::empty()),
            _ => Err(RenderError::UnrenderableValue),
        }
    }
}

pub open spec fn prepend(p: Seq<char>, r: Result<Seq<char>, RenderError>) -> Result<Seq<char>, RenderError> {
    match r {
        Ok(x) => Ok(p + x),
        Err(e) => Err(e),
    }
}

/// What the template `t` renders as from position `i` on: text is copied, and
/// each `{{ identifier }}` tag is replaced by the identifier's answer.
pub open spec fn render_from(t: Seq<char>, i: int, m: Map<Seq<char>, AnswerValue>) -> Result<Seq<char>, RenderError>
    decreases t.len() - i,
{
    if i < 0 || i >= t.len() {
        Ok(Seq::empty())
    } else if i + 1 < t.len() && t[i] == '{' && t[i + 1] == '{' {
        match close_of(t, i + 2) {
            None => Err(RenderError::UnclosedTag),
            Some(j) => {
                let name = tag_name(t.subrange(i + 2, j));
                if j < i + 2 || j + 2 > t.len() {
                    Err(RenderError::UnclosedTag)
                } else if !is_identifier(name) {
                    Err(RenderError::InvalidExpression)
                } else {
                    match shown(m, name) {
                        Err(e) => Err(e),
                        Ok(v) => prepend(v, render_from(t, j + 2, m)),
                    }
                }
            },
        }
    } else {
        prepend(seq![t[i]], render_from(t, i + 1, m))
    }
}

/// What the template `t` renders as with the answers `m`.
pub open spec fn rendered(t: Seq<char>, m: Map<Seq<char>, AnswerValue>) -> Result<Seq<char>, RenderError> {
    render_from(t, 0, m)
}

/// `t` holds no `{{`, so no tag.
pub open spec fn has_no_tags(t: Seq<char>) -> bool {
    forall|i: int| 0 <= i < t.len() - 1 ==> !(#[trigger] t[i] == '{' && t[i + 1] == '{')
}

proof fn lemma_close_bounds(t: Seq<char>, k: int)
    ensures
        close_of(t, k) matches Some(j) ==> k <= j && j + 2 <= t.len() && t[j] == '}' && t[j + 1]
            == '}',
    decreases t.len() - k,
{
    if !(k < 0 || k + 1 >= t.len()) && !(t[k] == '}' && t[k + 1] == '}') {
        lemma_close_bounds(t, k + 1);
    }
}

proof fn lemma_trim_left(s: Seq<char>, p: int)
    requires
        0 <= p <= s.len(),
        forall|q: int| 0 <= q < p ==> s[q] == ' ',
        p == s.len() || s[p] != ' ',
    ensures
        trim_left(s) == s.subrange(p, s.len() as int),
    decreases p,
{
    if p == 0 {
        assert(s.subrange(0, s.len() as int) =~= s);
    } else {
        let t = s.drop_first();
        assert forall|q: int| 0 <= q < p - 1 implies t[q] == ' ' by {
            assert(t[q] == s[q + 1]);
        }
        lemma_trim_left(t, p - 1);
        assert(t.subrange(p - 1, t.len() as int) =~= s.subrange(p, s.len() as int));
    }
}

proof fn lemma_trim_right(s: Seq<char>, e: int)
    requires
        0 <= e <= s.len(),
        forall|q: int| e <= q < s.len() ==> s[q] == ' ',
        e == 0 || s[e - 1] != ' ',
    ensures
        trim_right(s) == s.subrange(0, e),
    decreases s.len() - e,
{
    if e == s.len() {
        assert(s.subrange(0, e) =~= s);
    } else {
        let t = s.drop_last();
        lemma_trim_right(t, e);
        assert(t.subrange(0, e) =~= s.subrange(0, e));
    }
}

/// A template without tags renders as itself.
pub proof fn lemma_plain_text_renders_as_itself(t: Seq<char>, m: Map<Seq<char>, AnswerValue>)
    requires
        has_no_tags(t),
    ensures
        rendered(t, m) == Ok::<Seq<char>, RenderError>(t),
{
    lemma_plain_suffix(t, m, 0);
    assert(t.subrange(0, t.len() as int) =~= t);
}

proof fn lemma_plain_suffix(t: Seq<char>, m: Map<Seq<char>, AnswerValue>, i: int)
    requires
        has_no_tags(t),
        0 <= i <= t.len(),
    ensures
        render_from(t, i, m) == Ok::<Seq<char>, RenderError>(t.subrange(i, t.len() as int)),
    decreases t.len() - i,
{
    if i < t.len() {
        lemma_plain_suffix(t, m, i + 1);
        if i + 1 < t.len() {
            assert(!(t[i] == '{' && t[i + 1] == '{'));
        }
        assert(seq![t[i]] + t.subrange(i + 1, t.len() as int) =~= t.subrange(i, t.len() as int));
    } else {
        assert(t.subrange(i, t.len() as int) =~= Seq::<char>::empty());
    }
}

/// The position of the first `}}` at or after `from`.
fn find_close(template: &str, from: usize) -> (r: Option<usize>)
    ensures
        match r {
            Some(k) => close_of(template@, from as int) == Some(k as int),
            None => close_of(template@, from as int) is None,
        },
{
    let len = template.unicode_len();
    let mut k = from;
    while k < len && k + 1 < len
        invariant
            len == template@.len(),
            from <= k,
            close_of(template@, from as int) == close_of(template@, k as int),
        decreases len - k,
    {
        if template.get_char(k) == '}' && template.get_char(k + 1) == '}' {
            return Some(k);
        }
        k = k + 1;
    }
    None
}

/// The text an answer renders as.
fn show(value: Option<&AnswerValue>) -> (r: Result<String, RenderError>)
    ensures
        match value {
            None => r matches Ok(s) && s@ == Seq::<char>::empty(),
            Some(v) => match *v {
                AnswerValue::Str(s) => r matches Ok(x) && x@ == s@,
                AnswerValue::Int(i) => r matches Ok(x) && x@ == int_text(i as int),
                AnswerValue::Bool(b) => r matches Ok(x) && x@ == (if b { "true"@ } else { "false"@ }),
                AnswerValue::Unit => r matches Ok(x) && x@ == Seq::<char>::empty(),
                _ => r == Err::<String, RenderError>(RenderError::UnrenderableValue),
            },
        },
{
    match value {
        None => Ok(String::new()),
        Some(AnswerValue::Str(s)) => Ok(s.clone()),
        Some(AnswerValue::Int(i)) => Ok(int_to_text(*i)),
        Some(AnswerValue::Bool(b)) => {
            if *b {
                Ok("true".to_owned())
            } else {
                Ok("false".to_owned())
            }
        },
        Some(AnswerValue::Unit) => Ok(String::new()),
        Some(_) => Err(RenderError::UnrenderableValue),
    }
}

/// What the tag whose inside runs from `from` to `to` renders as.
#[verifier::loop_isolation(false)]
fn tag_text(template: &str, from: usize, to: usize, answers: &AnswerMap) -> (r: Result<String, RenderError>)
    requires
        from <= to <= template@.len(),
    ensures
        ({
            let name = tag_name(template@.subrange(from as int, to as int));
            match r {
                Ok(s) => is_identifier(name) && shown(answers@, name) == Ok::<Seq<char>, RenderError>(s@),
                Err(e) => if is_identifier(name) {
                    shown(answers@, name) == Err::<Seq<char>, RenderError>(e)
                } else {
                    e == RenderError::InvalidExpression
                },
            }
        }),
{
    let ghost t = template@;
    let ghost m = answers@;
    let len = template.unicode_len();
    let k = to;
    let mut a: usize = from;
    while a < k && template.get_char(a) == ' '
        invariant
            t == template@,
            from <= a <= k,
            k <= len,
            len == t.len(),
            forall|q: int| from <= q < a ==> t[q] == ' ',
        decreases k - a,
    {
        a = a + 1;
    }
    let mut b: usize = k;
    while b > a && template.get_char(b - 1) == ' '
        invariant
            t == template@,
            a <= b <= k,
            k <= len,
            len == t.len(),
            forall|q: int| b <= q < k ==> t[q] == ' ',
        decreases b,
    {
        b = b - 1;
    }
    let ghost inner = t.subrange(from as int, k as int);
    proof {
        assert(a == k || t[a as int] != ' ');
        lemma_trim_left(inner, a - from);
        let l = inner.subrange(a - from, inner.len() as int);
        assert(l =~= t.subrange(a as int, k as int));
        assert(b == a || t[b - 1] != ' ');
        lemma_trim_right(l, b - a);
        assert(l.subrange(0, b - a) =~= t.subrange(a as int, b as int));
    }
    let ghost name = t.subrange(a as int, b as int);
    assert(tag_name(inner) == name);
    if a == b || !ident_start(template.get_char(a)) {
        return Err(RenderError::InvalidExpression);
    }
    let mut c: usize = a + 1;
    while c < b
        invariant
            t == template@,
            a < c <= b,
            b <= len,
            len == t.len(),
            name == t.subrange(a as int, b as int),
            forall|q: int| 1 <= q < c - a ==> is_ident_char(#[trigger] name[q]),
        decreases b - c,
    {
        if !ident_char(template.get_char(c)) {
            assert(name[c - a] == t[c as int]);
            return Err(RenderError::InvalidExpression);
        }
        c = c + 1;
    }
    assert(is_identifier(name)) by {
        assert(name[0] == t[a as int]);
    }
    let key = slice_of(template, a, b);
    show(answers.get(key.as_str()))
}

/// Renders a template: text is copied, and each `{{ identifier }}` tag is
/// replaced by the identifier's answer.
#[verifier::loop_isolation(false)]
pub fn render_text(template: &str, answers: &AnswerMap) -> (r: Result<String, RenderError>)
    ensures
        match r {
            Ok(s) => rendered(template@, answers@) == Ok::<Seq<char>, RenderError>(s@),
            Err(e) => rendered(template@, answers@) == Err::<Seq<char>, RenderError>(e),
        },
{
    let ghost t = template@;
    let ghost m = answers@;
    let len = template.unicode_len();
    let mut out = String::new();
    let mut i: usize = 0;
    while i < len
        invariant
            t == template@,
            m == answers@,
            len == t.len(),
            i <= len,
            render_from(t, 0, m) == prepend(out@, render_from(t, i as int, m)),
        decreases len - i,
    {
        if i + 1 < len && template.get_char(i) == '{' && template.get_char(i + 1) == '{' {
            let k = match find_close(template, i + 2) {
                Some(k) => k,
                None => {
                    return Err(RenderError::UnclosedTag);
                },
            };
            proof {
                lemma_close_bounds(t, i + 2);
            }
            let shown_text = match tag_text(template, i + 2, k, answers) {
                Ok(s) => s,
                Err(e) => {
                    return Err(e);
                },
            };
            proof {
                assert(prepend(out@, prepend(shown_text@, render_from(t, k + 2, m))) == prepend(
                    out@ + shown_text@,
                    render_from(t, k + 2, m),
                )) by {
                    match render_from(t, k + 2, m) {
                        Ok(x) => {
                            assert(out@ + (shown_text@ + x) =~= (out@ + shown_text@) + x);
                        },
                        Err(_) => {},
                    }
                }
            }
            out.append(shown_text.as_str());
            i = k + 2;
        } else {
            let piece = template.substring_char(i, i + 1);
            proof {
                assert(piece@ =~= seq![t[i as int]]);
                match render_from(t, i + 1, m) {
                    Ok(x) => {
                        assert(out@ + (piece@ + x) =~= (out@ + piece@) + x);
                    },
                    Err(_) => {},
                }
            }
            out.append(piece);
            i = i + 1;
        }
    }
    assert(out@ + Seq::<char>::empty() =~= out@);
    Ok(out)
}

/// The name a rendered path segment leaves no file for: the manifest.
pub open spec fn skipped_name(s: Seq<char>) -> bool {
    s.len() == 0 || s == ".archetect.yml"@
}

/// Renders one segment of a template path. `None` where the segment renders
/// empty or as the manifest's name: that file or directory is left out.
pub fn render_path_segment(segment: &str, answers: &AnswerMap) -> (r: Result<Option<String>, RenderError>)
    ensures
        match rendered(segment@, answers@) {
            Ok(s) => if skipped_name(s) {
                r == Ok::<Option<String>, RenderError>(None)
            } else {
                r matches Ok(Some(x)) && x@ == s
            },
            Err(e) => r == Err::<Option<String>, RenderError>(e),
        },
{
    let name = match render_text(segment, answers) {
        Ok(n) => n,
        Err(e) => {
            return Err(e);
        },
    };
    if name.as_str().unicode_len() == 0 || crate::text::same_text(name.as_str(), ".archetect.yml") {
        Ok(None)
    } else {
        Ok(Some(name))
    }
}

/// What an archetype does where a file it renders already exists.
#[derive(Debug, Clone, Copy, PartialEq, Eq, Structural)]
pub enum OverwritePolicy {
    Preserve,
    Prompt,
    Overwrite,
}

/// What to do with one rendered file.
#[derive(Debug, Clone, Copy, PartialEq, Eq, Structural)]
pub enum WriteAction {
    /// Leave the existing file as it is.
    Skip,
    /// Write the file.
    Write,
    /// Ask the user whether to replace the existing file.
    Ask,
}

impl OverwritePolicy {
    /// The policy of an archetype that names none: ask.
    pub fn default_policy() -> (r: OverwritePolicy)
        ensures
            r == OverwritePolicy::Prompt,
    {
        OverwritePolicy::Prompt
    }
}

/// What to do with a rendered file, given whether its target exists.
pub fn write_action(policy: OverwritePolicy, exists: bool) -> (r: WriteAction)
    ensures
        !exists ==> r == WriteAction::Write,
        exists ==> r == match policy {
            OverwritePolicy::Preserve => WriteAction::Skip,
            OverwritePolicy::Prompt => WriteAction::Ask,
            OverwritePolicy::Overwrite => WriteAction::Write,
        },
{
    if !exists {
        return WriteAction::Write;
    }
    match policy {
        OverwritePolicy::Preserve => WriteAction::Skip,
        OverwritePolicy::Prompt => WriteAction::Ask,
        OverwritePolicy::Overwrite => WriteAction::Write,
    }
}

} // verus!
