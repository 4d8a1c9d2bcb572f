use vstd::prelude::*;

use crate::value::AnswerValue;

verus! {

/// What a prompt shows and the bounds it holds its answer to.
#[derive(Debug)]
pub struct PromptInfo {
    pub message: String,
    pub key: Option<String>,
    pub optional: bool,
    pub min: Option<i64>,
    pub max: Option<i64>,
    pub placeholder: Option<String>,
    pub help: Option<String>,
}

/// A message from the runtime to the IO driver.
#[derive(Debug)]
pub enum CommandRequest {
    PromptForText(PromptInfo, Option<String>),
    PromptForInt(PromptInfo, Option<i64>),
    PromptForBool(PromptInfo, Option<bool>),
    /// A choice of one of the options, shown in this order.
    PromptForSelect(PromptInfo, Vec<String>),
    LogTrace(String),
    LogDebug(String),
    LogInfo(String),
    LogWarn(String),
    LogError(String),
    Print(String),
}

/// The IO driver's reply to a prompt.
#[derive(Debug)]
pub enum CommandResponse {
    String(String),
    Integer(i64),
    Boolean(bool),
    Array(Vec<AnswerValue>),
    NoAnswer,
    Abort,
    Error(String),
}

/// The level at which a driver script logs a message.
#[derive(Debug, Clone, Copy, PartialEq, Eq, Structural)]
pub enum LogLevel {
    Info,
    Trace,
    Debug,
    Warn,
    Error,
}

/// The request that carries a script's log message at `level`.
pub fn log_request(level: LogLevel, message: String) -> (r: CommandRequest)
    ensures
        match level {
            LogLevel::Info => r matches CommandRequest::LogInfo(m) && m == message,
            LogLevel::Trace => r matches CommandRequest::LogTrace(m) && m == message,
            LogLevel::Debug => r matches CommandRequest::LogDebug(m) && m == message,
            LogLevel::Warn => r matches CommandRequest::LogWarn(m) && m == message,
            LogLevel::Error => r matches CommandRequest::LogError(m) && m == message,
        },
{
    match level {
        LogLevel::Info => CommandRequest::LogInfo(message),
        LogLevel::Trace => CommandRequest::LogTrace(message),
        LogLevel::Debug => CommandRequest::LogDebug(message),
        LogLevel::Warn => CommandRequest::LogWarn(message),
        LogLevel::Error => CommandRequest::LogError(message),
    }
}

} // verus!
