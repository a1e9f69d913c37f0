//! Messages for the event broadcaster: a progress record, or the status that
//! ended a run, framed as a JSON object. Publishing is best-effort.
use vstd::prelude::*;
use crate::job::{JobKey, Status};
use crate::progress::{Progress, ProgressView};

verus! {

/// The JSON string literal that stands for `s`: quoted, with its special
/// characters escaped.
pub uninterp spec fn json_string(s: Seq<char>) -> Seq<char>;

/// Relies on `serde_json::Value::String` and its `Display`, which writes the
/// text out as a JSON string literal; the result depends on the text alone.
#[verifier::external_body]
fn quote_json(s: &str) -> (r: String)
    ensures
        r@ == json_string(s@),
{
    serde_json::Value::String(s.to_string()).to_string()
}

/// The message for a progress record of the job of `key`: one JSON object
/// whose members, in the order of their names, are the record's fields and
/// the job's URL.
pub open spec fn progress_message_spec(key: Seq<char>, p: ProgressView) -> Seq<char> {
    "{\"eta\":"@ + json_string(p.eta) + ",\"percent\":"@ + json_string(p.percent)
        + ",\"size_downloaded\":"@ + json_string(p.size_downloaded) + ",\"speed\":"@
        + json_string(p.speed) + ",\"url\":"@ + json_string(key) + "}"@
}

/// The message that announces the status that ended a run of the job of
/// `key`.
pub open spec fn status_message_spec(key: Seq<char>, status: Status) -> Seq<char> {
    "{\"status\":"@ + json_string(status.spec_name()) + ",\"url\":"@ + json_string(key) + "}"@
}

/// The message for a progress record of the job of `key`.
pub fn progress_message(key: &JobKey, p: &Progress) -> (r: String)
    ensures
        r@ == progress_message_spec(key@, p@),
{
    let mut m = String::from_str("{\"eta\":");
    m.append(quote_json(p.eta.as_str()).as_str());
    m.append(",\"percent\":");
    m.append(quote_json(p.percent.as_str()).as_str());
    m.append(",\"size_downloaded\":");
    m.append(quote_json(p.size_downloaded.as_str()).as_str());
    m.append(",\"speed\":");
    m.append(quote_json(p.speed.as_str()).as_str());
    m.append(",\"url\":");
    m.append(quote_json(key.as_str()).as_str());
    m.append("}");
    m
}

/// The message that announces the status that ended a run of the job of
/// `key`.
pub fn status_message(key: &JobKey, status: Status) -> (r: String)
    ensures
        r@ == status_message_spec(key@, status),
{
    let mut m = String::from_str("{\"status\":");
    m.append(quote_json(status.name()).as_str());
    m.append(",\"url\":");
    m.append(quote_json(key.as_str()).as_str());
    m.append("}");
    m
}

/// Takes in the result of publishing a message and goes no further with it:
/// a failed publish (no subscriber, or one that left) never reaches the job.
/// Tells the caller whether the message went out.
pub fn handle_send<T>(send_result: Result<(), T>) -> (delivered: bool)
    ensures
        delivered == send_result is Ok,
{
    match send_result {
        Ok(()) => true,
        Err(_) => false,
    }
}

} // verus!
