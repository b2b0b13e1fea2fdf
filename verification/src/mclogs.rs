//! What the log service reports about an uploaded log.

use vstd::prelude::*;
use vstd::string::StringExecFns;

verus! {

#[derive(Debug)]
pub struct LogFileMetadata {
    pub id: String,
    pub url: String,
    pub raw: String,
}

#[derive(Debug)]
pub struct LogInsights {
    pub id: String,
    pub name: String,
    pub log_type: String,
    pub version: String,
    pub title: String,
    pub analysis: LogAnalysis,
}

#[derive(Debug)]
pub struct LogAnalysis {
    pub problems: Vec<Problem>,
    pub information: Vec<Information>,
}

#[derive(Debug)]
pub struct Problem {
    pub message: String,
    pub counter: usize,
    pub entry: AnalysisEntry,
    pub solutions: Vec<Solution>,
}

#[derive(Debug)]
pub struct Information {
    pub message: String,
    pub counter: usize,
    pub label: String,
    pub value: String,
    pub entry: AnalysisEntry,
}

#[derive(Debug)]
pub struct AnalysisEntry {
    pub level: usize,
    pub time: Option<String>,
    pub prefix: String,
    pub lines: Vec<AnalysisLine>,
}

#[derive(Debug)]
pub struct AnalysisLine {
    pub number: usize,
    pub content: String,
}

#[derive(Debug)]
pub struct Solution {
    pub message: String,
}

/// What a response of the service holds in its field `success`.
#[derive(Debug, Clone, Copy, PartialEq, Eq)]
pub enum SuccessField {
    /// The response has no such field.
    Missing,
    /// The field holds something that is no boolean.
    NotBool,
    Bool(bool),
}

/// What to make of a response of the service.
#[derive(Debug)]
pub enum Verdict {
    /// The response holds what was asked for.
    Accept,
    /// The service, or the response's shape, refuses with this message.
    Reject(String),
}

/// The message of a response that refuses: its field `error` where that is
/// a string, and a fixed text where it is not.
pub open spec fn refusal(error: Option<String>) -> Seq<char> {
    match error {
        Some(message) => message@,
        None => "unknown error"@,
    }
}

/// What to make of the response to an uploaded log.
pub open spec fn upload_outcome(success: SuccessField, error: Option<String>) -> Option<
    Seq<char>,
> {
    match success {
        SuccessField::Missing => Some("'success' field not in response"@),
        SuccessField::NotBool => Some("'success' field in response was not a bool"@),
        SuccessField::Bool(true) => None,
        SuccessField::Bool(false) => Some(refusal(error)),
    }
}

/// What to make of the response to a request for insights: only an
/// explicit `false` refuses.
pub open spec fn insights_outcome(success: SuccessField, error: Option<String>) -> Option<
    Seq<char>,
> {
    match success {
        SuccessField::Bool(false) => Some(refusal(error)),
        _ => None,
    }
}

impl Verdict {
    /// The message of a refusal, `None` for an acceptance.
    pub open spec fn message(self) -> Option<Seq<char>> {
        match self {
            Verdict::Accept => None,
            Verdict::Reject(text) => Some(text@),
        }
    }
}

/// The message with which a refusing response is reported.
pub fn refusal_message(error: Option<String>) -> (message: String)
    ensures
        message@ == refusal(error),
{
    match error {
        Some(message) => message,
        None => String::from_str("unknown error"),
    }
}

/// Judges the response to an uploaded log by its fields `success` and
/// `error`.
pub fn judge_upload(success: SuccessField, error: Option<String>) -> (verdict: Verdict)
    ensures
        verdict.message() == upload_outcome(success, error),
{
    match success {
        SuccessField::Missing => Verdict::Reject(
            String::from_str("'success' field not in response"),
        ),
        SuccessField::NotBool => Verdict::Reject(
            String::from_str("'success' field in response was not a bool"),
        ),
        SuccessField::Bool(true) => Verdict::Accept,
        SuccessField::Bool(false) => Verdict::Reject(refusal_message(error)),
    }
}

/// Judges the response to a request for insights by its fields `success`
/// and `error`.
pub fn judge_insights(success: SuccessField, error: Option<String>) -> (verdict: Verdict)
    ensures
        verdict.message() == insights_outcome(success, error),
{
    match success {
        SuccessField::Bool(false) => Verdict::Reject(refusal_message(error)),
        _ => Verdict::Accept,
    }
}

/// Where the log service answers.
pub const API_V1: &'static str = "https://api.mclo.gs/1";

/// The address that takes a log.
pub fn upload_url() -> (url: String)
    ensures
        url@ == API_V1@ + "/log"@,
{
    let mut url = String::from_str(API_V1);
    url.append("/log");
    url
}

/// The address of the text of the log `id`.
pub fn raw_log_url(id: &str) -> (url: String)
    ensures
        url@ == API_V1@ + "/raw/"@ + id@,
{
    let mut url = String::from_str(API_V1);
    url.append("/raw/");
    url.append(id);
    url
}

/// The address of the insights into the log `id`.
pub fn insights_url(id: &str) -> (url: String)
    ensures
        url@ == API_V1@ + "/insights/"@ + id@,
{
    let mut url = String::from_str(API_V1);
    url.append("/insights/");
    url.append(id);
    url
}

} // verus!
