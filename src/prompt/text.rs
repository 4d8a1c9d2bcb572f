use vstd::prelude::*;

use crate::answer_map::AnswerMap;
use crate::prompt::{
    attributed, common_setting_error, fail, info_from_settings, int_setting, is_optional, opt_str_view,
    opt_view, other_response, other_response_outcome, prompt_info, read_text_setting, text_setting,
    text_setting_ok, PromptError, PromptErrorKind, PromptStep,
};
use crate::protocol::{CommandRequest, CommandResponse, PromptInfo};
use crate::validation::{text_violation, validate_text};
use crate::value::AnswerValue;

verus! {

/// What a text prompt resolves to, short of asking the driver: the settings are
/// read, then a supplied answer is checked, then headless runs take the default.
pub open spec fn text_prompt_outcome(
    message: Seq<char>,
    key: Option<Seq<char>>,
    m: Map<Seq<char>, AnswerValue>,
    headless: bool,
    answer: Option<AnswerValue>,
    r: Result<PromptStep<String>, PromptError>,
) -> bool {
    let min = int_setting(m, "min"@);
    let max = int_setting(m, "max"@);
    let default = text_setting(m, "defaults_with"@);
    if common_setting_error(m, true) is Some {
        r matches Err(e) && e.kind matches PromptErrorKind::InvalidPromptSetting(n) && n@
            == common_setting_error(m, true)->0
    } else if !text_setting_ok(m, "defaults_with"@) {
        r matches Err(e) && e.kind matches PromptErrorKind::InvalidPromptSetting(n) && n@
            == "defaults_with"@
    } else if answer is Some {
        match answer->0 {
            AnswerValue::Str(s) => match text_violation(min, max, s@.len() as int) {
                None => r matches Ok(PromptStep::Answered(Some(t))) && t@ == s@,
                Some(v) => r matches Err(e) && e.kind == PromptErrorKind::AnswerValidation(v),
            },
            _ => r matches Err(e) && e.kind is AnswerType,
        }
    } else if headless {
        match default {
            Some(d) => match text_violation(min, max, d.len() as int) {
                None => r matches Ok(PromptStep::Answered(Some(t))) && t@ == d,
                Some(v) => r matches Err(e) && e.kind == PromptErrorKind::AnswerValidation(v),
            },
            None => if is_optional(m) {
                r == Ok::<PromptStep<String>, PromptError>(PromptStep::Answered(None))
            } else {
                r matches Err(e) && e.kind is HeadlessNoAnswer
            },
        }
    } else {
        r matches Ok(PromptStep::Ask(CommandRequest::PromptForText(info, d))) && info_from_settings(
            info,
            message,
            key,
            m,
            true,
            Some(1i64),
        ) && opt_view(d) == default
    }
}

/// A text prompt: resolves it from a supplied answer or, headless, from its
/// default, or says what to ask the driver.
pub fn prompt(
    message: &str,
    settings: &AnswerMap,
    headless: bool,
    key: Option<&str>,
    answer: Option<&AnswerValue>,
) -> (r: Result<PromptStep<String>, PromptError>)
    ensures
        text_prompt_outcome(
            message@,
            opt_str_view(key),
            settings@,
            headless,
            match answer {
                Some(a) => Some(*a),
                None => None,
            },
            r,
        ),
        answer is Some ==> !(r matches Ok(PromptStep::Ask(_))),
        r matches Err(e) ==> attributed(e, message@, opt_str_view(key)),
{
    let info = match prompt_info(message, key, settings, true, Some(1)) {
        Ok(info) => info,
        Err(e) => {
            return Err(e);
        },
    };
    let default = match read_text_setting(settings, "defaults_with") {
        Ok(d) => d,
        Err(_) => {
            return Err(fail(PromptErrorKind::InvalidPromptSetting("defaults_with".to_owned()), &info));
        },
    };
    if let Some(a) = answer {
        return match a {
            AnswerValue::Str(s) => match validate_text(info.min, info.max, s.as_str()) {
                Ok(_) => Ok(PromptStep::Answered(Some(s.clone()))),
                Err(v) => Err(fail(PromptErrorKind::AnswerValidation(v), &info)),
            },
            _ => Err(fail(PromptErrorKind::AnswerType, &info)),
        };
    }
    if headless {
        return match default {
            Some(d) => match validate_text(info.min, info.max, d.as_str()) {
                Ok(_) => Ok(PromptStep::Answered(Some(d))),
                Err(v) => Err(fail(PromptErrorKind::AnswerValidation(v), &info)),
            },
            None => {
                if info.optional {
                    Ok(PromptStep::Answered(None))
                } else {
                    Err(fail(PromptErrorKind::HeadlessNoAnswer, &info))
                }
            },
        };
    }
    Ok(PromptStep::Ask(CommandRequest::PromptForText(info, default)))
}

/// What the driver's response to a text prompt gives.
pub open spec fn text_response_outcome(info: PromptInfo, response: CommandResponse, r: Result<Option<String>, PromptError>) -> bool {
    match response {
        CommandResponse::String(s) => match text_violation(info.min, info.max, s@.len() as int) {
            None => r matches Ok(Some(t)) && t@ == s@,
            Some(v) => r matches Err(e) && e.kind == PromptErrorKind::AnswerValidation(v),
        },
        _ => other_response_outcome(info, response, r),
    }
}

/// A headless run gives a prompt with a default what an interactive run gives
/// when the user accepts the default that the driver was sent.
pub proof fn lemma_headless_takes_offered_default(
    message: Seq<char>,
    key: Option<Seq<char>>,
    m: Map<Seq<char>, AnswerValue>,
    headless_result: Result<PromptStep<String>, PromptError>,
    interactive_result: Result<PromptStep<String>, PromptError>,
    accepted: String,
    accepted_result: Result<Option<String>, PromptError>,
)
    requires
        text_setting(m, "defaults_with"@) is Some,
        text_prompt_outcome(message, key, m, true, None, headless_result),
        text_prompt_outcome(message, key, m, false, None, interactive_result),
        interactive_result matches Ok(PromptStep::Ask(CommandRequest::PromptForText(info, d))) && d
            matches Some(x) && x == accepted && text_response_outcome(
            info,
            CommandResponse::String(accepted),
            accepted_result,
        ),
    ensures
        match headless_result {
            Ok(PromptStep::Answered(Some(h))) => accepted_result matches Ok(Some(a)) && h@ == a@,
            Err(e) => accepted_result matches Err(e2) && e2.kind == e.kind,
            _ => false,
        },
{
}

/// Interprets the driver's response to a text prompt.
pub fn receive_text(info: &PromptInfo, response: CommandResponse) -> (r: Result<Option<String>, PromptError>)
    ensures
        text_response_outcome(*info, response, r),
        r matches Err(e) ==> attributed(e, info.message@, opt_view(info.key)),
{
    match response {
        CommandResponse::String(s) => match validate_text(info.min, info.max, s.as_str()) {
            Ok(_) => Ok(Some(s)),
            Err(v) => Err(fail(PromptErrorKind::AnswerValidation(v), info)),
        },
        other => other_response(info, other),
    }
}

} // verus!
