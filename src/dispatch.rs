use crate::payload::{alert_body, alert_json, SendError};
use crate::timestamp::UtcTimestamp;
use vstd::prelude::*;

verus! {

/// How long one alert request may take before it counts as a transport failure.
pub const REQUEST_TIMEOUT_SECS: u64 = 10;

/// One configured destination of failure alerts.
#[derive(Debug)]
pub struct ProbeAlert {
    pub url: String,
}

/// What the caller of an `AlertDispatch` is to do next.
#[derive(Debug)]
pub enum AlertAction {
    /// POST `body` to `url`, giving up after `timeout_secs` seconds, then
    /// report the outcome through `record_response`.
    Post { url: String, body: String, timeout_secs: u64 },
    /// The dispatch is over, with this result.
    Finish(Result<(), SendError>),
}

/// The destinations a dispatch notifies, in order.
pub open spec fn alert_urls(alerts: Seq<ProbeAlert>) -> Seq<Seq<char>> {
    alerts.map_values(|a: ProbeAlert| a.url@)
}

/// The destinations notified about a probe outcome: none when the probe
/// succeeded or none are configured, else every configured one in order.
pub open spec fn dispatch_targets(success: bool, alerts: Option<Seq<ProbeAlert>>) -> Seq<Seq<char>> {
    if success {
        Seq::empty()
    } else {
        match alerts {
            Some(a) => alert_urls(a),
            None => Seq::empty(),
        }
    }
}

/// The state of a dispatch: where it stands in its list of destinations.
pub struct DispatchView {
    pub targets: Seq<Seq<char>>,
    /// How many destinations, from the front, have received their alert.
    pub delivered: nat,
    /// The error that ended the dispatch, if one did.
    pub failure: Option<SendError>,
}

/// The state in which a dispatch about a probe outcome starts.
pub open spec fn initial_view(success: bool, alerts: Option<Seq<ProbeAlert>>) -> DispatchView {
    DispatchView { targets: dispatch_targets(success, alerts), delivered: 0, failure: None }
}

/// Whether a destination still waits for its alert: nothing failed and not
/// every destination has been served.
pub open spec fn pending(v: DispatchView) -> bool {
    v.failure is None && v.delivered < v.targets.len()
}

/// The result a dispatch reports once nothing is pending.
pub open spec fn outcome(v: DispatchView) -> Result<(), SendError> {
    match v.failure {
        Some(e) => Err(e),
        None => Ok(()),
    }
}

/// The state after the current destination answered (`Ok`) or the request
/// to it failed (`Err`, with the cause). The status code of an answer is not
/// looked at; a failure ends the dispatch, so later destinations get nothing.
pub open spec fn after_response(v: DispatchView, response: Result<(), String>) -> DispatchView {
    if pending(v) {
        match response {
            Ok(()) => DispatchView { delivered: v.delivered + 1, ..v },
            Err(cause) => DispatchView { failure: Some(SendError::TransportFailed(cause)), ..v },
        }
    } else {
        v
    }
}

/// The state after a run of responses, in order.
pub open spec fn after_responses(v: DispatchView, responses: Seq<Result<(), String>>) -> DispatchView
    decreases responses.len(),
{
    if responses.len() == 0 {
        v
    } else {
        after_responses(after_response(v, responses[0]), responses.drop_first())
    }
}

/// The alerts for one probe outcome, sent one destination at a time, in the
/// configured order, stopping at the first failure.
pub struct AlertDispatch {
    probe_name: String,
    failure_timestamp: UtcTimestamp,
    targets: Vec<String>,
    delivered: usize,
    failure: Option<SendError>,
    awaiting: bool,
}

impl AlertDispatch {
    pub closed spec fn view(&self) -> DispatchView {
        DispatchView {
            targets: self.targets@.map_values(|t: String| t@),
            delivered: self.delivered as nat,
            failure: self.failure,
        }
    }

    pub closed spec fn probe_name_spec(&self) -> Seq<char> {
        self.probe_name@
    }

    pub closed spec fn timestamp_spec(&self) -> UtcTimestamp {
        self.failure_timestamp
    }

    /// Whether a `Post` was handed out and its outcome is not yet recorded.
    pub closed spec fn awaiting_response(&self) -> bool {
        self.awaiting
    }

    pub closed spec fn wf(&self) -> bool {
        &&& self.failure_timestamp.wf()
        &&& self.delivered <= self.targets.len()
        &&& self.awaiting ==> pending(self.view())
    }

    /// Starts the dispatch for a probe outcome. A succeeded probe, or one
    /// without destinations, has nothing to send.
    pub fn new(
        success: bool,
        probe_name: &String,
        failure_timestamp: UtcTimestamp,
        alerts: &Option<Vec<ProbeAlert>>,
    ) -> (r: AlertDispatch)
        requires
            failure_timestamp.wf(),
        ensures
            r.wf(),
            !r.awaiting_response(),
            r.view() == initial_view(
                success,
                match alerts {
                    Some(a) => Some(a@),
                    None => None,
                },
            ),
            r.probe_name_spec() == probe_name@,
            r.timestamp_spec() == failure_timestamp,
    {
        let mut targets: Vec<String> = Vec::new();
        if !success {
            if let Some(list) = alerts {
                let mut i: usize = 0;
                while i < list.len()
                    invariant
                        i <= list@.len(),
                        targets@.len() == i,
                        targets@.map_values(|t: String| t@) =~= alert_urls(list@).take(i as int),
                    decreases list@.len() - i,
                {
                    let url = list[i].url.clone();
                    targets.push(url);
                    assert(targets@.map_values(|t: String| t@)[i as int] == alert_urls(list@)[i as int]);
                    i = i + 1;
                    assert(targets@.map_values(|t: String| t@) =~= alert_urls(list@).take(i as int));
                }
                assert(alert_urls(list@).take(list@.len() as int) =~= alert_urls(list@));
            }
        }
        let r = AlertDispatch {
            probe_name: probe_name.clone(),
            failure_timestamp,
            targets,
            delivered: 0,
            failure: None,
            awaiting: false,
        };
        assert(r.view().targets =~= dispatch_targets(
            success,
            match alerts {
                Some(a) => Some(a@),
                None => None,
            },
        ));
        r
    }

    /// What to do next: POST the current destination its alert, or finish.
    /// While a destination is pending the answer is always its `Post`, with
    /// the body for its URL and the fixed timeout; asking again before the
    /// outcome is recorded hands out the same `Post`. Nothing is pending once
    /// the dispatch failed or every destination was served; then the
    /// dispatch finishes with its outcome.
    pub fn next_action(&mut self) -> (r: AlertAction)
        requires
            old(self).wf(),
        ensures
            final(self).wf(),
            final(self).view() == old(self).view(),
            final(self).probe_name_spec() == old(self).probe_name_spec(),
            final(self).timestamp_spec() == old(self).timestamp_spec(),
            !pending(old(self).view()) ==> final(self).awaiting_response()
                == old(self).awaiting_response() && r == AlertAction::Finish(
                outcome(old(self).view()),
            ),
            pending(old(self).view()) ==> final(self).awaiting_response() && match r {
                AlertAction::Post { url, body, timeout_secs } => {
                    &&& url@ == old(self).view().targets[old(self).view().delivered as int]
                    &&& body@ == alert_body(
                        url@,
                        old(self).probe_name_spec(),
                        old(self).timestamp_spec().secs_spec(),
                        old(self).timestamp_spec().nanos_spec(),
                    )
                    &&& timeout_secs == REQUEST_TIMEOUT_SECS
                },
                AlertAction::Finish(_) => false,
            },
    {
        if self.failure.is_some() || self.delivered >= self.targets.len() {
            let res = match &self.failure {
                Some(e) => Err(Self::copy_error(e)),
                None => Ok(()),
            };
            return AlertAction::Finish(res);
        }
        let url = self.targets[self.delivered].clone();
        match alert_json(&url, &self.probe_name, &self.failure_timestamp) {
            Ok(body) => {
                self.awaiting = true;
                AlertAction::Post { url, body, timeout_secs: REQUEST_TIMEOUT_SECS }
            },
            Err(e) => AlertAction::Finish(Err(e)),
        }
    }

    fn copy_error(e: &SendError) -> (r: SendError)
        ensures
            r == *e,
    {
        match e {
            SendError::EncodingFailed => SendError::EncodingFailed,
            SendError::TransportFailed(cause) => SendError::TransportFailed(cause.clone()),
        }
    }

    /// Reports how the request of the last `Post` ended: `Ok` when any
    /// response came, whatever its status; `Err` with the cause when the
    /// request failed or timed out. A failure ends the dispatch. Only the
    /// outcome of a `Post` that was handed out can be recorded, once.
    pub fn record_response(&mut self, response: Result<(), String>)
        requires
            old(self).wf(),
            old(self).awaiting_response(),
        ensures
            final(self).wf(),
            !final(self).awaiting_response(),
            final(self).view() == after_response(old(self).view(), response),
            final(self).probe_name_spec() == old(self).probe_name_spec(),
            final(self).timestamp_spec() == old(self).timestamp_spec(),
    {
        if self.awaiting {
            self.awaiting = false;
            match response {
                Ok(()) => {
                    self.delivered = self.delivered + 1;
                },
                Err(cause) => {
                    self.failure = Some(SendError::TransportFailed(cause));
                },
            }
        }
    }
}

/// A dispatch about a probe that succeeded has nothing pending from the
/// start, whatever destinations are configured: its first action finishes
/// with success and no request is made.
pub proof fn healthy_outcome_sends_nothing(alerts: Option<Seq<ProbeAlert>>)
    ensures
        !pending(initial_view(true, alerts)),
        outcome(initial_view(true, alerts)) is Ok,
{
}

/// A dispatch about a failed probe without destinations, absent or empty,
/// has nothing pending: it finishes with success and no request is made.
pub proof fn no_destinations_sends_nothing(alerts: Option<Seq<ProbeAlert>>)
    requires
        alerts matches Some(a) ==> a.len() == 0,
    ensures
        !pending(initial_view(false, alerts)),
        outcome(initial_view(false, alerts)) is Ok,
{
}

/// Once the request to a destination fails, the dispatch has failed with
/// `TransportFailed` for good: whatever else is reported, no later
/// destination becomes pending, so none is attempted.
pub proof fn transport_failure_ends_dispatch(
    v: DispatchView,
    cause: String,
    later: Seq<Result<(), String>>,
)
    requires
        pending(v),
    ensures
        ({
            let w = after_responses(after_response(v, Err(cause)), later);
            &&& !pending(w)
            &&& w.delivered == v.delivered
            &&& outcome(w) == Err::<(), SendError>(SendError::TransportFailed(cause))
        }),
{
    settled_state_stays(after_response(v, Err(cause)), later);
}

/// When every pending destination answers, whatever its status code, the
/// dispatch serves all of them, one after another in the configured order,
/// and ends in success.
pub proof fn all_answered_succeeds(v: DispatchView, responses: Seq<Result<(), String>>)
    requires
        v.failure is None,
        v.delivered <= v.targets.len(),
        responses.len() == v.targets.len() - v.delivered,
        forall|i: int| 0 <= i < responses.len() ==> responses[i] is Ok,
    ensures
        !pending(after_responses(v, responses)),
        after_responses(v, responses).delivered == v.targets.len(),
        outcome(after_responses(v, responses)) is Ok,
    decreases responses.len(),
{
    if responses.len() > 0 {
        let rest = responses.drop_first();
        assert forall|i: int| 0 <= i < rest.len() implies rest[i] is Ok by {
            assert(rest[i] == responses[i + 1]);
        }
        all_answered_succeeds(after_response(v, responses[0]), rest);
    }
}

proof fn settled_state_stays(v: DispatchView, later: Seq<Result<(), String>>)
    requires
        !pending(v),
    ensures
        after_responses(v, later) == v,
    decreases later.len(),
{
    if later.len() > 0 {
        settled_state_stays(after_response(v, later[0]), later.drop_first());
    }
}

} // verus!
