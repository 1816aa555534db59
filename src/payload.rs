use crate::timestamp::{utc_display_of, utc_rfc3339_of, UtcTimestamp};
use vstd::prelude::*;

verus! {

#[verifier::external_type_specification]
#[verifier::external_body]
pub struct ExJsonError(serde_json::Error);

/// Why one alert could not be delivered.
#[derive(Debug)]
pub enum SendError {
    /// The notification body could not be serialized; nothing was sent.
    EncodingFailed,
    /// The request failed or timed out before a response came; holds the cause.
    TransportFailed(String),
}

/// The JSON string literal, quoted and escaped, that stands for `s`.
pub uninterp spec fn json_string_of(s: Seq<char>) -> Seq<char>;

/// Relies on `serde_json::to_string` on a `str`: the JSON string literal for
/// `s`, which depends on the characters of `s` alone. A `str` is serialized
/// by escaping it into a `Vec`, which cannot fail, so the result is `Ok`.
#[verifier::external_body]
fn json_string(s: &str) -> (r: Result<String, serde_json::Error>)
    ensures
        r is Ok,
        r matches Ok(t) ==> t@ == json_string_of(s@),
{
    serde_json::to_string(s)
}

/// What a destination URL holds when it is a Slack incoming webhook.
pub const SLACK_WEBHOOK_MARKER: &'static str = "https://hooks.slack.com";

pub open spec fn slack_marker() -> Seq<char> {
    SLACK_WEBHOOK_MARKER@
}

/// Whether `marker` occurs in `url` at position `i`.
pub open spec fn occurs_at(url: Seq<char>, marker: Seq<char>, i: int) -> bool {
    0 <= i && i + marker.len() <= url.len() && url.subrange(i, i + marker.len()) == marker
}

/// A URL is a Slack destination when it holds the marker anywhere.
pub open spec fn is_slack(url: Seq<char>) -> bool {
    exists|i: int| occurs_at(url, slack_marker(), i)
}

/// Whether `url` names a Slack incoming webhook: a plain substring test.
pub fn is_slack_url(url: &str) -> (r: bool)
    ensures
        r == is_slack(url@),
{
    let marker: &str = SLACK_WEBHOOK_MARKER;
    let n = url.unicode_len();
    let m = marker.unicode_len();
    if m > n {
        assert forall|i: int| !occurs_at(url@, slack_marker(), i) by {}
        return false;
    }
    let mut i: usize = 0;
    while i <= n - m
        invariant
            n == url@.len(),
            m == marker@.len(),
            marker@ == slack_marker(),
            m <= n,
            i <= n - m + 1,
            forall|k: int| 0 <= k < i ==> !occurs_at(url@, slack_marker(), k),
        decreases n - m + 1 - i,
    {
        let mut j: usize = 0;
        let mut same = true;
        while j < m && same
            invariant
                n == url@.len(),
                m == marker@.len(),
                i + m <= n,
                j <= m,
                same ==> forall|l: int| 0 <= l < j ==> url@[i + l] == marker@[l],
                !same ==> exists|l: int| 0 <= l < m && url@[i + l] != marker@[l],
            decreases m - j + (if same { 1int } else { 0int }),
        {
            if url.get_char(i + j) != marker.get_char(j) {
                same = false;
                assert(url@[i + j] != marker@[j as int]);
            } else {
                j = j + 1;
            }
        }
        if same {
            assert(url@.subrange(i as int, i + m) =~= marker@);
            assert(occurs_at(url@, slack_marker(), i as int));
            return true;
        }
        proof {
            let l = choose|l: int| 0 <= l < m && url@[i + l] != marker@[l];
            assert(url@.subrange(i as int, i + m)[l] != marker@[l]);
        }
        i = i + 1;
    }
    assert forall|k: int| !occurs_at(url@, slack_marker(), k) by {
        if 0 <= k && k + m <= n {
            assert(k < i);
        }
    }
    false
}

/// The message that a Slack destination shows for a failed probe.
pub open spec fn slack_text(probe_name: Seq<char>, timestamp_text: Seq<char>) -> Seq<char> {
    "Prodzilla probe "@ + probe_name + " failed at "@ + timestamp_text
}

/// A Slack body around the JSON string `text_json`: `{"text":...}`.
pub open spec fn slack_frame(text_json: Seq<char>) -> Seq<char> {
    "{\"text\":"@ + text_json + "}"@
}

/// A generic webhook body around the JSON strings for the probe name and the
/// failure time, with the message fixed.
pub open spec fn generic_frame(name_json: Seq<char>, timestamp_json: Seq<char>) -> Seq<char> {
    "{\"message\":\"Probe failed.\",\"probe_name\":"@ + name_json + ",\"failure_timestamp\":"@
        + timestamp_json + "}"@
}

/// The body sent to a Slack destination.
pub open spec fn slack_body(probe_name: Seq<char>, secs: int, nanos: int) -> Seq<char> {
    slack_frame(json_string_of(slack_text(probe_name, utc_display_of(secs, nanos))))
}

/// The body sent to any other destination.
pub open spec fn generic_body(probe_name: Seq<char>, secs: int, nanos: int) -> Seq<char> {
    generic_frame(json_string_of(probe_name), json_string_of(utc_rfc3339_of(secs, nanos)))
}

/// The body that `url` receives: its shape depends on the URL alone.
pub open spec fn alert_body(url: Seq<char>, probe_name: Seq<char>, secs: int, nanos: int) -> Seq<
    char,
> {
    if is_slack(url) {
        slack_body(probe_name, secs, nanos)
    } else {
        generic_body(probe_name, secs, nanos)
    }
}

/// The Slack message for a probe that failed at the time shown by `timestamp_text`.
pub fn slack_text_for(probe_name: &str, timestamp_text: &str) -> (r: String)
    ensures
        r@ == slack_text(probe_name@, timestamp_text@),
{
    let mut r = String::from_str("Prodzilla probe ");
    r.append(probe_name);
    r.append(" failed at ");
    r.append(timestamp_text);
    r
}

/// Wraps an already serialized JSON string as a Slack body.
pub fn slack_body_from(text_json: &str) -> (r: String)
    ensures
        r@ == slack_frame(text_json@),
{
    let mut r = String::from_str("{\"text\":");
    r.append(text_json);
    r.append("}");
    r
}

/// Builds a generic webhook body from the already serialized probe name and
/// failure time.
pub fn generic_body_from(name_json: &str, timestamp_json: &str) -> (r: String)
    ensures
        r@ == generic_frame(name_json@, timestamp_json@),
{
    let mut r = String::from_str("{\"message\":\"Probe failed.\",\"probe_name\":");
    r.append(name_json);
    r.append(",\"failure_timestamp\":");
    r.append(timestamp_json);
    r.append("}");
    r
}

/// The JSON body that `url_to_alert` receives about `probe_name` failing at
/// `failure_timestamp`: Slack-shaped when the URL holds the Slack webhook
/// host, generic otherwise. Only a serialization failure could be an error,
/// and strings always serialize, so the body is always produced.
pub fn alert_json(url_to_alert: &String, probe_name: &String, failure_timestamp: &UtcTimestamp) -> (r:
    Result<String, SendError>)
    requires
        failure_timestamp.wf(),
    ensures
        r is Ok,
        r matches Ok(b) ==> b@ == alert_body(
            url_to_alert@,
            probe_name@,
            failure_timestamp.secs_spec(),
            failure_timestamp.nanos_spec(),
        ),
{
    if is_slack_url(url_to_alert.as_str()) {
        let shown = failure_timestamp.display_text();
        let text = slack_text_for(probe_name.as_str(), shown.as_str());
        match json_string(text.as_str()) {
            Ok(text_json) => Ok(slack_body_from(text_json.as_str())),
            Err(_) => Err(SendError::EncodingFailed),
        }
    } else {
        let name_json = match json_string(probe_name.as_str()) {
            Ok(j) => j,
            Err(_) => {
                return Err(SendError::EncodingFailed);
            },
        };
        let rfc = failure_timestamp.rfc3339_text();
        match json_string(rfc.as_str()) {
            Ok(ts_json) => Ok(generic_body_from(name_json.as_str(), ts_json.as_str())),
            Err(_) => Err(SendError::EncodingFailed),
        }
    }
}

/// A destination whose URL holds the Slack webhook host receives exactly
/// `{"text":"Prodzilla probe <name> failed at <timestamp>"}`, the text
/// serialized as one JSON string.
pub proof fn slack_destination_body(url: Seq<char>, probe_name: Seq<char>, secs: int, nanos: int)
    requires
        is_slack(url),
    ensures
        alert_body(url, probe_name, secs, nanos) == "{\"text\":"@ + json_string_of(
            "Prodzilla probe "@ + probe_name + " failed at "@ + utc_display_of(secs, nanos),
        ) + "}"@,
{
}

/// Any other destination receives an object with the fields `message`, fixed
/// to "Probe failed.", `probe_name` and `failure_timestamp`, the latter in
/// RFC 3339 form.
pub proof fn generic_destination_body(url: Seq<char>, probe_name: Seq<char>, secs: int, nanos: int)
    requires
        !is_slack(url),
    ensures
        alert_body(url, probe_name, secs, nanos) == "{\"message\":\"Probe failed.\",\"probe_name\":"@
            + json_string_of(probe_name) + ",\"failure_timestamp\":"@ + json_string_of(
            utc_rfc3339_of(secs, nanos),
        ) + "}"@,
{
}

} // verus!
