use vstd::prelude::*;

use crate::answer_map::AnswerMap;
use crate::prompt::{
    attributed, bool_setting, bool_setting_ok, common_setting_error, fail, info_from_settings,
    is_optional, opt_str_view, opt_view, other_response, other_response_outcome, prompt_info,
    read_bool_setting, PromptError, PromptErrorKind, PromptStep,
};
use crate::protocol::{CommandRequest, CommandResponse, PromptInfo};
use crate::text::same_text;
use crate::validation::Violation;
use crate::value::AnswerValue;

verus! {

/// The lower-case form of a text, as `str::to_lowercase` gives it.
pub uninterp spec fn lower_of(s: Seq<char>) -> Seq<char>;

/// Relies on `str::to_lowercase`: the result depends on the characters alone.
#[verifier::external_body]
fn lowercase(s: &str) -> (r: String)
    ensures
        r@ == lower_of(s@),
{
    s.to_lowercase()
}

/// The boolean that a lower-case word stands for: `y`, `yes`, `t` and `true` for
/// true; `n`, `no`, `f` and `false` for false.
pub open spec fn boolean_word(s: Seq<char>) -> Option<bool> {
    if s == "y"@ || s == "yes"@ || s == "t"@ || s == "true"@ {
        Some(true)
    } else if s == "n"@ || s == "no"@ || s == "f"@ || s == "false"@ {
        Some(false)
    } else {
        None
    }
}

pub open spec fn as_result(b: Option<bool>) -> Result<bool, ()> {
    match b {
        Some(v) => Ok(v),
        None => Err(()),
    }
}

/// Reads an already lower-cased word as a boolean.
pub fn boolean_of_folded(folded: &str) -> (r: Result<bool, ()>)
    ensures
        r == as_result(boolean_word(folded@)),
{
    if same_text(folded, "y") || same_text(folded, "yes") || same_text(folded, "t") || same_text(
        folded,
        "true",
    ) {
        Ok(true)
    } else if same_text(folded, "n") || same_text(folded, "no") || same_text(folded, "f")
        || same_text(folded, "false") {
        Ok(false)
    } else {
        Err(())
    }
}

/// Reads a word as a boolean, whatever its case.
pub fn get_boolean(value: &str) -> (r: Result<bool, ()>)
    ensures
        r == as_result(boolean_word(lower_of(value@))),
{
    let folded = lowercase(value);
    boolean_of_folded(folded.as_str())
}

/// What a supplied answer gives a boolean prompt: a boolean as it is, a string
/// that reads as one in any case, else a failure.
pub open spec fn bool_answer_outcome(a: AnswerValue, r: Result<PromptStep<bool>, PromptError>) -> bool {
    match a {
        AnswerValue::Bool(b) => r == Ok::<PromptStep<bool>, PromptError>(PromptStep::Answered(Some(b))),
        AnswerValue::Str(s) => match boolean_word(lower_of(s@)) {
            Some(b) => r == Ok::<PromptStep<bool>, PromptError>(PromptStep::Answered(Some(b))),
            None => r matches Err(e) && e.kind == PromptErrorKind::AnswerValidation(
                Violation::NotABoolean,
            ),
        },
        _ => r matches Err(e) && e.kind is AnswerType,
    }
}

/// What a boolean prompt resolves to, short of asking the driver: the settings
/// are read, then a supplied answer is checked, then headless runs take the
/// default.
pub open spec fn bool_prompt_outcome(
    message: Seq<char>,
    key: Option<Seq<char>>,
    m: Map<Seq<char>, AnswerValue>,
    headless: bool,
    answer: Option<AnswerValue>,
    r: Result<PromptStep<bool>, PromptError>,
) -> bool {
    let default = bool_setting(m, "defaults_with"@);
    if common_setting_error(m, false) is Some {
        r matches Err(e) && e.kind matches PromptErrorKind::InvalidPromptSetting(n) && n@
            == common_setting_error(m, false)->0
    } else if !bool_setting_ok(m, "defaults_with"@) {
        r matches Err(e) && e.kind matches PromptErrorKind::InvalidPromptSetting(n) && n@
            == "defaults_with"@
    } else if answer is Some {
        bool_answer_outcome(answer->0, r)
    } else if headless {
        match default {
            Some(d) => r == Ok::<PromptStep<bool>, PromptError>(PromptStep::Answered(Some(d))),
            None => if is_optional(m) {
                r == Ok::<PromptStep<bool>, PromptError>(PromptStep::Answered(None))
            } else {
                r matches Err(e) && e.kind is HeadlessNoAnswer
            },
        }
    } else {
        r matches Ok(PromptStep::Ask(CommandRequest::PromptForBool(info, d))) && info_from_settings(
            info,
            message,
            key,
            m,
            false,
            None,
        ) && d == default
    }
}

/// A boolean prompt: resolves it from a supplied answer or, headless, from its
/// default, or says what to ask the driver.
pub fn prompt(
    message: &str,
    settings: &AnswerMap,
    headless: bool,
    key: Option<&str>,
    answer: Option<&AnswerValue>,
) -> (r: Result<PromptStep<bool>, PromptError>)
    ensures
        bool_prompt_outcome(
            message@,
            opt_str_view(key),
            settings@,
            headless,
            match answer {
                Some(a) => Some(*a),
                None => None,
            },
            r,
        ),
        answer is Some ==> !(r matches Ok(PromptStep::Ask(_))),
        r matches Err(e) ==> attributed(e, message@, opt_str_view(key)),
{
    let info = match prompt_info(message, key, settings, false, None) {
        Ok(info) => info,
        Err(e) => {
            return Err(e);
        },
    };
    let default = match read_bool_setting(settings, "defaults_with") {
        Ok(d) => d,
        Err(_) => {
            return Err(fail(PromptErrorKind::InvalidPromptSetting("defaults_with".to_owned()), &info));
        },
    };
    if let Some(a) = answer {
        return match a {
            AnswerValue::Bool(b) => Ok(PromptStep::Answered(Some(*b))),
            AnswerValue::Str(s) => match get_boolean(s.as_str()) {
                Ok(b) => Ok(PromptStep::Answered(Some(b))),
                Err(_) => Err(fail(PromptErrorKind::AnswerValidation(Violation::NotABoolean), &info)),
            },
            _ => Err(fail(PromptErrorKind::AnswerType, &info)),
        };
    }
    if headless {
        return match default {
            Some(d) => Ok(PromptStep::Answered(Some(d))),
            None => {
                if info.optional {
                    Ok(PromptStep::Answered(None))
                } else {
                    Err(fail(PromptErrorKind::HeadlessNoAnswer, &info))
                }
            },
        };
    }
    Ok(PromptStep::Ask(CommandRequest::PromptForBool(info, default)))
}

/// What the driver's response to a boolean prompt gives.
pub open spec fn bool_response_outcome(info: PromptInfo, response: CommandResponse, r: Result<Option<bool>, PromptError>) -> bool {
    match response {
        CommandResponse::Boolean(b) => r == Ok::<Option<bool>, PromptError>(Some(b)),
        _ => other_response_outcome(info, response, r),
    }
}

/// A headless run gives a boolean prompt with a default what an interactive
/// run gives when the user accepts the default that the driver was sent.
pub proof fn lemma_headless_takes_offered_bool_default(
    message: Seq<char>,
    key: Option<Seq<char>>,
    m: Map<Seq<char>, AnswerValue>,
    headless_result: Result<PromptStep<bool>, PromptError>,
    interactive_result: Result<PromptStep<bool>, PromptError>,
    accepted_result: Result<Option<bool>, PromptError>,
)
    requires
        bool_setting(m, "defaults_with"@) is Some,
        bool_prompt_outcome(message, key, m, true, None, headless_result),
        bool_prompt_outcome(message, key, m, false, None, interactive_result),
        interactive_result matches Ok(PromptStep::Ask(CommandRequest::PromptForBool(info, d))) && d
            is Some && bool_response_outcome(info, CommandResponse::Boolean(d->0), accepted_result),
    ensures
        match headless_result {
            Ok(PromptStep::Answered(Some(h))) => accepted_result == Ok::<Option<bool>, PromptError>(Some(h)),
            Err(e) => accepted_result matches Err(e2) && e2.kind == e.kind,
            _ => false,
        },
{
}

/// Interprets the driver's response to a boolean prompt.
pub fn receive_bool(info: &PromptInfo, response: CommandResponse) -> (r: Result<Option<bool>, PromptError>)
    ensures
        bool_response_outcome(*info, response, r),
        r matches Err(e) ==> attributed(e, info.message@, opt_view(info.key)),
{
    match response {
        CommandResponse::Boolean(b) => Ok(Some(b)),
        other => other_response(info, other),
    }
}

} // verus!
