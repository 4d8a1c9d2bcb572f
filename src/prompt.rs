use vstd::prelude::*;

use crate::answer_map::AnswerMap;
use crate::protocol::{CommandResponse, PromptInfo};
use crate::validation::Violation;
use crate::value::AnswerValue;

pub mod boolean;
pub mod integer;
pub mod text;

verus! {

/// What went wrong with a prompt.
#[derive(Debug)]
pub enum PromptErrorKind {
    /// A prompt setting has the wrong type; it holds the setting's name.
    InvalidPromptSetting(String),
    /// A supplied answer has the wrong type for the prompt.
    AnswerType,
    /// A supplied or entered answer breaks the prompt's bounds.
    AnswerValidation(Violation),
    /// Headless, with neither an answer nor a default for a required prompt.
    HeadlessNoAnswer,
    /// No answer was given to a prompt that is not optional.
    AnswerNotOptional,
    /// The driver replied with a response of another kind.
    UnexpectedResponse,
    /// The driver reported an error.
    Prompt(String),
    /// The user cancelled the prompt.
    ScriptAbort,
}

/// A prompt's failure, with the prompt's message and key for attribution.
#[derive(Debug)]
pub struct PromptError {
    pub kind: PromptErrorKind,
    pub message: String,
    pub key: Option<String>,
}

/// What a prompt does next: it has its answer (`None` for no answer), or it
/// sends a request to the IO driver and waits for the response.
#[derive(Debug)]
pub enum PromptStep<T> {
    Answered(Option<T>),
    Ask(crate::protocol::CommandRequest),
}

pub open spec fn opt_view(o: Option<String>) -> Option<Seq<char>> {
    match o {
        Some(s) => Some(s@),
        None => None,
    }
}

pub open spec fn opt_str_view(o: Option<&str>) -> Option<Seq<char>> {
    match o {
        Some(s) => Some(s@),
        None => None,
    }
}

/// A setting counts as absent where it is missing or holds the unit value.
pub open spec fn unset(m: Map<Seq<char>, AnswerValue>, k: Seq<char>) -> bool {
    !m.contains_key(k) || m[k] is Unit
}

pub open spec fn bool_setting_ok(m: Map<Seq<char>, AnswerValue>, k: Seq<char>) -> bool {
    unset(m, k) || m[k] is Bool
}

pub open spec fn int_setting_ok(m: Map<Seq<char>, AnswerValue>, k: Seq<char>) -> bool {
    unset(m, k) || m[k] is Int
}

pub open spec fn text_setting_ok(m: Map<Seq<char>, AnswerValue>, k: Seq<char>) -> bool {
    unset(m, k) || m[k] is Str
}

pub open spec fn bool_setting(m: Map<Seq<char>, AnswerValue>, k: Seq<char>) -> Option<bool> {
    if !unset(m, k) && m[k] is Bool {
        Some(m[k]->Bool_0)
    } else {
        None
    }
}

pub open spec fn int_setting(m: Map<Seq<char>, AnswerValue>, k: Seq<char>) -> Option<i64> {
    if !unset(m, k) && m[k] is Int {
        Some(m[k]->Int_0)
    } else {
        None
    }
}

pub open spec fn text_setting(m: Map<Seq<char>, AnswerValue>, k: Seq<char>) -> Option<Seq<char>> {
    if !unset(m, k) && m[k] is Str {
        Some(m[k]->Str_0@)
    } else {
        None
    }
}

/// The settings make the prompt optional.
pub open spec fn is_optional(m: Map<Seq<char>, AnswerValue>) -> bool {
    bool_setting(m, "optional"@) == Some(true)
}

/// The first of the settings that every prompt reads (`optional`, then `min` and
/// `max` where the prompt is bounded, then `placeholder` and `help`) whose value
/// has the wrong type.
pub open spec fn common_setting_error(m: Map<Seq<char>, AnswerValue>, bounded: bool) -> Option<
    Seq<char>,
> {
    if !bool_setting_ok(m, "optional"@) {
        Some("optional"@)
    } else if bounded && !int_setting_ok(m, "min"@) {
        Some("min"@)
    } else if bounded && !int_setting_ok(m, "max"@) {
        Some("max"@)
    } else if !text_setting_ok(m, "placeholder"@) {
        Some("placeholder"@)
    } else if !text_setting_ok(m, "help"@) {
        Some("help"@)
    } else {
        None
    }
}

/// `info` shows `message` under `key` with the settings of `m`; a bounded
/// prompt without a `min` setting tells the driver the minimum `least`.
pub open spec fn info_from_settings(
    info: PromptInfo,
    message: Seq<char>,
    key: Option<Seq<char>>,
    m: Map<Seq<char>, AnswerValue>,
    bounded: bool,
    least: Option<i64>,
) -> bool {
    &&& info.message@ == message
    &&& opt_view(info.key) == key
    &&& info.optional == (bool_setting(m, "optional"@) == Some(true))
    &&& info.min == (if !bounded {
        None
    } else if int_setting(m, "min"@) is Some {
        int_setting(m, "min"@)
    } else {
        least
    })
    &&& info.max == (if bounded { int_setting(m, "max"@) } else { None })
    &&& opt_view(info.placeholder) == text_setting(m, "placeholder"@)
    &&& opt_view(info.help) == text_setting(m, "help"@)
}

/// `e` is attributed to the prompt with this message and key.
pub open spec fn attributed(e: PromptError, message: Seq<char>, key: Option<Seq<char>>) -> bool {
    e.message@ == message && opt_view(e.key) == key
}

pub fn own_key(key: Option<&str>) -> (r: Option<String>)
    ensures
        opt_view(r) == opt_str_view(key),
{
    match key {
        Some(k) => Some(k.to_owned()),
        None => None,
    }
}

pub fn copy_key(key: &Option<String>) -> (r: Option<String>)
    ensures
        opt_view(r) == opt_view(*key),
{
    match key {
        Some(k) => Some(k.clone()),
        None => None,
    }
}

/// A failure of the prompt that `info` describes.
pub fn fail(kind: PromptErrorKind, info: &PromptInfo) -> (r: PromptError)
    ensures
        r.kind == kind,
        r.message@ == info.message@,
        opt_view(r.key) == opt_view(info.key),
{
    PromptError { kind, message: info.message.clone(), key: copy_key(&info.key) }
}

/// Reads a boolean setting: `Err` where it holds another type.
pub fn read_bool_setting(settings: &AnswerMap, name: &str) -> (r: Result<Option<bool>, ()>)
    ensures
        match r {
            Ok(b) => bool_setting_ok(settings@, name@) && b == bool_setting(settings@, name@),
            Err(_) => !bool_setting_ok(settings@, name@),
        },
{
    match settings.get(name) {
        None => Ok(None),
        Some(AnswerValue::Unit) => Ok(None),
        Some(AnswerValue::Bool(b)) => Ok(Some(*b)),
        Some(_) => Err(()),
    }
}

/// Reads an integer setting: `Err` where it holds another type.
pub fn read_int_setting(settings: &AnswerMap, name: &str) -> (r: Result<Option<i64>, ()>)
    ensures
        match r {
            Ok(i) => int_setting_ok(settings@, name@) && i == int_setting(settings@, name@),
            Err(_) => !int_setting_ok(settings@, name@),
        },
{
    match settings.get(name) {
        None => Ok(None),
        Some(AnswerValue::Unit) => Ok(None),
        Some(AnswerValue::Int(i)) => Ok(Some(*i)),
        Some(_) => Err(()),
    }
}

/// Reads a text setting: `Err` where it holds another type.
pub fn read_text_setting(settings: &AnswerMap, name: &str) -> (r: Result<Option<String>, ()>)
    ensures
        match r {
            Ok(s) => text_setting_ok(settings@, name@) && opt_view(s) == text_setting(
                settings@,
                name@,
            ),
            Err(_) => !text_setting_ok(settings@, name@),
        },
{
    match settings.get(name) {
        None => Ok(None),
        Some(AnswerValue::Unit) => Ok(None),
        Some(AnswerValue::Str(s)) => Ok(Some(s.clone())),
        Some(_) => Err(()),
    }
}

fn setting_error(name: &str, message: &str, key: Option<&str>) -> (r: PromptError)
    ensures
        r.kind matches PromptErrorKind::InvalidPromptSetting(n) && n@ == name@,
        attributed(r, message@, opt_str_view(key)),
{
    PromptError {
        kind: PromptErrorKind::InvalidPromptSetting(name.to_owned()),
        message: message.to_owned(),
        key: own_key(key),
    }
}

/// Builds the description of a prompt from its settings, or names the first
/// setting of the wrong type.
pub fn prompt_info(message: &str, key: Option<&str>, settings: &AnswerMap, bounded: bool, least: Option<i64>) -> (r:
    Result<PromptInfo, PromptError>)
    ensures
        match r {
            Ok(info) => common_setting_error(settings@, bounded) is None && info_from_settings(
                info,
                message@,
                opt_str_view(key),
                settings@,
                bounded,
                least,
            ),
            Err(e) => {
                &&& attributed(e, message@, opt_str_view(key))
                &&& common_setting_error(settings@, bounded) is Some
                &&& e.kind matches PromptErrorKind::InvalidPromptSetting(s) && s@
                    == common_setting_error(settings@, bounded)->0
            },
        },
{
    let optional = match read_bool_setting(settings, "optional") {
        Ok(b) => b,
        Err(_) => {
            return Err(setting_error("optional", message, key));
        },
    };
    let mut min: Option<i64> = None;
    let mut max: Option<i64> = None;
    if bounded {
        min = match read_int_setting(settings, "min") {
            Ok(i) => i,
            Err(_) => {
                return Err(setting_error("min", message, key));
            },
        };
        if min.is_none() {
            min = least;
        }
        max = match read_int_setting(settings, "max") {
            Ok(i) => i,
            Err(_) => {
                return Err(setting_error("max", message, key));
            },
        };
    }
    let placeholder = match read_text_setting(settings, "placeholder") {
        Ok(s) => s,
        Err(_) => {
            return Err(setting_error("placeholder", message, key));
        },
    };
    let help = match read_text_setting(settings, "help") {
        Ok(s) => s,
        Err(_) => {
            return Err(setting_error("help", message, key));
        },
    };
    let optional = match optional {
        Some(true) => true,
        _ => false,
    };
    Ok(
        PromptInfo {
            message: message.to_owned(),
            key: own_key(key),
            optional,
            min,
            max,
            placeholder,
            help,
        },
    )
}

/// What every prompt does with a response that carries no answer of its type:
/// `NoAnswer` is no answer where the prompt is optional and a failure where it is
/// not; a reported error, a cancellation or another kind of response fail.
pub open spec fn other_response_outcome<T>(info: PromptInfo, response: CommandResponse, r: Result<
    Option<T>,
    PromptError,
>) -> bool {
    match response {
        CommandResponse::NoAnswer => if info.optional {
            r == Ok::<Option<T>, PromptError>(None)
        } else {
            r matches Err(e) && e.kind is AnswerNotOptional
        },
        CommandResponse::Error(m) => r matches Err(e) && e.kind matches PromptErrorKind::Prompt(
            n,
        ) && n@ == m@,
        CommandResponse::Abort => r matches Err(e) && e.kind is ScriptAbort,
        _ => r matches Err(e) && e.kind is UnexpectedResponse,
    }
}

/// Handles a response that carries no answer of the prompt's type.
pub fn other_response<T>(info: &PromptInfo, response: CommandResponse) -> (r: Result<
    Option<T>,
    PromptError,
>)
    ensures
        other_response_outcome(*info, response, r),
        r matches Err(e) ==> attributed(e, info.message@, opt_view(info.key)),
{
    match response {
        CommandResponse::NoAnswer => {
            if info.optional {
                Ok(None)
            } else {
                Err(fail(PromptErrorKind::AnswerNotOptional, info))
            }
        },
        CommandResponse::Error(m) => Err(fail(PromptErrorKind::Prompt(m), info)),
        CommandResponse::Abort => Err(fail(PromptErrorKind::ScriptAbort, info)),
        _ => Err(fail(PromptErrorKind::UnexpectedResponse, info)),
    }
}

/// The `NoAnswer` response to a prompt that is not optional always fails with
/// `AnswerNotOptional`; to an optional prompt it is always no answer, without
/// failure.
pub proof fn lemma_no_answer_response<T>(info: PromptInfo, r: Result<Option<T>, PromptError>)
    requires
        other_response_outcome(info, CommandResponse::NoAnswer, r),
    ensures
        !info.optional ==> (r matches Err(e) && e.kind is AnswerNotOptional),
        info.optional ==> r == Ok::<Option<T>, PromptError>(None),
{
}

} // verus!
