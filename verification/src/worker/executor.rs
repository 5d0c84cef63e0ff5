//! Webhook execution: the request sent for a job, and how the response (or
//! the failure to get one) is classified.

use vstd::prelude::*;
use vstd::string::*;
use crate::models::job::Job;
use crate::text::{concat3, i64_decimal, int_decimal};

verus! {

/// What executing a job's webhook came to.
#[derive(Debug, Clone, PartialEq)]
pub enum WebhookResult {
    /// A 2xx answer, with its body unless the body was empty.
    Success(Option<String>),
    /// A 4xx answer: retrying cannot help.
    PermanentFailure(String),
    /// Any other answer, or a failure to send that is neither a timeout
    /// nor a connection failure.
    TransientFailure(String),
    /// The request timed out.
    Timeout,
    /// No connection could be made.
    ConnectionError(String),
}

/// `StatusCode::is_success`: 200 to 299.
pub open spec fn is_success_status(code: u16) -> bool {
    200 <= code <= 299
}

/// `StatusCode::is_client_error`: 400 to 499.
pub open spec fn is_client_error_status(code: u16) -> bool {
    400 <= code <= 499
}

/// The failure text for an unsuccessful answer: "HTTP {status}: {body}".
pub open spec fn http_failure_text(status_text: Seq<char>, body: Seq<char>) -> Seq<char> {
    "HTTP "@ + status_text + ": "@ + body
}

/// Classifies an answer with status `code`, whose rendering (such as
/// "404 Not Found") is `status_text`, and body `body`: 2xx succeeds with
/// the body (none when empty), 4xx fails permanently, anything else
/// transiently; failures carry "HTTP {status}: {body}".
pub fn classify_response(code: u16, status_text: &str, body: String) -> (r: WebhookResult)
    ensures
        is_success_status(code) ==> r == WebhookResult::Success(if body@.len() == 0 { None } else { Some(body) }),
        is_client_error_status(code) ==> (r matches WebhookResult::PermanentFailure(m)
            && m@ == http_failure_text(status_text@, body@)),
        !is_success_status(code) && !is_client_error_status(code) ==> (
            r matches WebhookResult::TransientFailure(m) && m@ == http_failure_text(status_text@, body@)),
{
    if 200 <= code && code <= 299 {
        if body.as_str().unicode_len() == 0 {
            WebhookResult::Success(None)
        } else {
            WebhookResult::Success(Some(body))
        }
    } else {
        let mut m = concat3("HTTP ", status_text, ": ");
        m.append(body.as_str());
        if 400 <= code && code <= 499 {
            WebhookResult::PermanentFailure(m)
        } else {
            WebhookResult::TransientFailure(m)
        }
    }
}

/// Classifies a failure to get an answer: a timeout, a connection failure
/// (with its text), or any other failure (with its text), which is
/// transient.
pub fn classify_send_error(is_timeout: bool, is_connect: bool, text: String) -> (r: WebhookResult)
    ensures
        is_timeout ==> r == WebhookResult::Timeout,
        !is_timeout && is_connect ==> r == WebhookResult::ConnectionError(text),
        !is_timeout && !is_connect ==> r == WebhookResult::TransientFailure(text),
{
    if is_timeout {
        WebhookResult::Timeout
    } else if is_connect {
        WebhookResult::ConnectionError(text)
    } else {
        WebhookResult::TransientFailure(text)
    }
}

/// The POST sent for a job: to its callback URL, with its payload as the
/// body, these headers, and its timeout.
#[derive(Debug, Clone, PartialEq)]
pub struct WebhookRequest {
    pub url: String,
    pub headers: Vec<(String, String)>,
    pub body: String,
    pub timeout_ms: i32,
}

/// The request for `job`: headers X-Mininq-Job-Id, X-Mininq-Attempt (the
/// attempt number in decimal), X-Mininq-Queue and a JSON content type.
pub fn webhook_request(job: &Job) -> (r: WebhookRequest)
    ensures
        r.url == job.callback_url,
        r.body == job.payload,
        r.timeout_ms == job.timeout_ms,
        r.headers@.len() == 4,
        r.headers@[0].0@ == "X-Mininq-Job-Id"@ && r.headers@[0].1 == job.id,
        r.headers@[1].0@ == "X-Mininq-Attempt"@ && r.headers@[1].1@ == int_decimal(job.attempt as int),
        r.headers@[2].0@ == "X-Mininq-Queue"@ && r.headers@[2].1 == job.queue_name,
        r.headers@[3].0@ == "Content-Type"@ && r.headers@[3].1@ == "application/json"@,
{
    let mut headers: Vec<(String, String)> = Vec::new();
    headers.push((String::from_str("X-Mininq-Job-Id"), job.id.clone()));
    headers.push((String::from_str("X-Mininq-Attempt"), i64_decimal(job.attempt as i64)));
    headers.push((String::from_str("X-Mininq-Queue"), job.queue_name.clone()));
    headers.push((String::from_str("Content-Type"), String::from_str("application/json")));
    WebhookRequest {
        url: job.callback_url.clone(),
        headers,
        body: job.payload.clone(),
        timeout_ms: job.timeout_ms,
    }
}

} // verus!
