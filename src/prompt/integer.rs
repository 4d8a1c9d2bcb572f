use vstd::prelude::*;

use crate::answer_map::AnswerMap;
use crate::prompt::{
    attributed, common_setting_error, fail, info_from_settings, int_setting, int_setting_ok,
    is_optional, opt_str_view, opt_view, other_response, other_response_outcome, prompt_info,
    read_int_setting, PromptError, PromptErrorKind, PromptStep,
};
use crate::protocol::{CommandRequest, CommandResponse, PromptInfo};
use crate::validation::{int_violation, validate_int};
use crate::value::AnswerValue;

verus! {

/// What an integer prompt resolves to, short of asking the driver: the settings
/// are read, then a supplied answer is checked, then headless runs take the
/// default.
pub open spec fn int_prompt_outcome(
    message: Seq<char>,
    key: Option<Seq<char>>,
    m: Map<Seq<char>, AnswerValue>,
    headless: bool,
    answer: Option<AnswerValue>,
    r: Result<PromptStep<i64>, PromptError>,
) -> bool {
    let min = int_setting(m, "min"@);
    let max = int_setting(m, "max"@);
    let default = int_setting(m, "defaults_with"@);
    if common_setting_error(m, true) is Some {
        r matches Err(e) && e.kind matches PromptErrorKind::InvalidPromptSetting(n) && n@
            == common_setting_error(m, true)->0
    } else if !int_setting_ok(m, "defaults_with"@) {
        r matches Err(e) && e.kind matches PromptErrorKind::InvalidPromptSetting(n) && n@
            == "defaults_with"@
    } else if answer is Some {
        match answer->0 {
            AnswerValue::Int(i) => match int_violation(min, max, i) {
                None => r == Ok::<PromptStep<i64>, PromptError>(PromptStep::Answered(Some(i))),
                Some(v) => r matches Err(e) && e.kind == PromptErrorKind::AnswerValidation(v),
            },
            _ => r matches Err(e) && e.kind is AnswerType,
        }
    } else if headless {
        match default {
            Some(d) => match int_violation(min, max, d) {
                None => r == Ok::<PromptStep<i64>, PromptError>(PromptStep::Answered(Some(d))),
                Some(v) => r matches Err(e) && e.kind == PromptErrorKind::AnswerValidation(v),
            },
            None => if is_optional(m) {
                r == Ok::<PromptStep<i64>, PromptError>(PromptStep::Answered(None))
            } else {
                r matches Err(e) && e.kind is HeadlessNoAnswer
            },
        }
    } else {
        r matches Ok(PromptStep::Ask(CommandRequest::PromptForInt(info, d))) && info_from_settings(
            info,
            message,
            key,
            m,
            true,
            None,
        ) && d == default
    }
}

/// An integer prompt: resolves it from a supplied answer or, headless, from its
/// default, or says what to ask the driver.
pub fn prompt_int(
    message: &str,
    settings: &AnswerMap,
    headless: bool,
    key: Option<&str>,
    answer: Option<&AnswerValue>,
) -> (r: Result<PromptStep<i64>, PromptError>)
    ensures
        int_prompt_outcome(
            message@,
            opt_str_view(key),
            settings@,
            headless,
            match answer {
                Some(a) => Some(*a),
                None => None,
            },
            r,
        ),
        answer is Some ==> !(r matches Ok(PromptStep::Ask(_))),
        r matches Err(e) ==> attributed(e, message@, opt_str_view(key)),
{
    let info = match prompt_info(message, key, settings, true, None) {
        Ok(info) => info,
        Err(e) => {
            return Err(e);
        },
    };
    let default = match read_int_setting(settings, "defaults_with") {
        Ok(d) => d,
        Err(_) => {
            return Err(fail(PromptErrorKind::InvalidPromptSetting("defaults_with".to_owned()), &info));
        },
    };
    if let Some(a) = answer {
        return match a {
            AnswerValue::Int(i) => match validate_int(info.min, info.max, *i) {
                Ok(_) => Ok(PromptStep::Answered(Some(*i))),
                Err(v) => Err(fail(PromptErrorKind::AnswerValidation(v), &info)),
            },
            _ => Err(fail(PromptErrorKind::AnswerType, &info)),
        };
    }
    if headless {
        return match default {
            Some(d) => match validate_int(info.min, info.max, d) {
                Ok(_) => Ok(PromptStep::Answered(Some(d))),
                Err(v) => Err(fail(PromptErrorKind::AnswerValidation(v), &info)),
            },
            None => {
                if info.optional {
                    Ok(PromptStep::Answered(None))
                } else {
                    Err(fail(PromptErrorKind::HeadlessNoAnswer, &info))
                }
            },
        };
    }
    Ok(PromptStep::Ask(CommandRequest::PromptForInt(info, default)))
}

/// What the driver's response to an integer prompt gives.
pub open spec fn int_response_outcome(info: PromptInfo, response: CommandResponse, r: Result<Option<i64>, PromptError>) -> bool {
    match response {
        CommandResponse::Integer(i) => match int_violation(info.min, info.max, i) {
            None => r == Ok::<Option<i64>, PromptError>(Some(i)),
            Some(v) => r matches Err(e) && e.kind == PromptErrorKind::AnswerValidation(v),
        },
        _ => other_response_outcome(info, response, r),
    }
}

/// A headless run gives an integer prompt with a default what an interactive
/// run gives when the user accepts the default that the driver was sent.
pub proof fn lemma_headless_takes_offered_int_default(
    message: Seq<char>,
    key: Option<Seq<char>>,
    m: Map<Seq<char>, AnswerValue>,
    headless_result: Result<PromptStep<i64>, PromptError>,
    interactive_result: Result<PromptStep<i64>, PromptError>,
    accepted_result: Result<Option<i64>, PromptError>,
)
    requires
        int_setting(m, "defaults_with"@) is Some,
        int_prompt_outcome(message, key, m, true, None, headless_result),
        int_prompt_outcome(message, key, m, false, None, interactive_result),
        interactive_result matches Ok(PromptStep::Ask(CommandRequest::PromptForInt(info, d))) && d
            is Some && int_response_outcome(info, CommandResponse::Integer(d->0), accepted_result),
    ensures
        match headless_result {
            Ok(PromptStep::Answered(Some(h))) => accepted_result == Ok::<Option<i64>, PromptError>(Some(h)),
            Err(e) => accepted_result matches Err(e2) && e2.kind == e.kind,
            _ => false,
        },
{
}

/// Interprets the driver's response to an integer prompt.
pub fn receive_int(info: &PromptInfo, response: CommandResponse) -> (r: Result<Option<i64>, PromptError>)
    ensures
        int_response_outcome(*info, response, r),
        r matches Err(e) ==> attributed(e, info.message@, opt_view(info.key)),
{
    match response {
        CommandResponse::Integer(i) => match validate_int(info.min, info.max, i) {
            Ok(_) => Ok(Some(i)),
            Err(v) => Err(fail(PromptErrorKind::AnswerValidation(v), info)),
        },
        other => other_response(info, other),
    }
}

} // verus!
