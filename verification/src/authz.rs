//! The gateway's `query_range` endpoint: who is asking, whether they own the
//! device, and what the Prometheus query for the device's temperature is.
use vstd::prelude::*;
use vstd::string::*;
use crate::http::{
    header_text, header_text_of, is_success_status, success_class, STATUS_BAD_GATEWAY,
    STATUS_BAD_REQUEST, STATUS_FORBIDDEN, STATUS_OK, STATUS_UNAUTHORIZED,
};
use crate::urls::{parse_url, parsed_url};
use crate::user_auth::device_ownership;

verus! {

/// The query string of a `query_range` request.
pub struct QueryRangeParams {
    pub device_id: String,
    pub start: String,
    pub end: String,
    pub step: String,
}

/// The PromQL selector of a device's temperature: `temperature_celsius{id="<device>"}`.
pub open spec fn metric_query_text(device: Seq<char>) -> Seq<char> {
    "temperature_celsius{id=\""@ + device + "\"}"@
}

/// The Prometheus `query_range` URL for a device, a time range and a step,
/// appended to the Prometheus base URL `endpoint`.
pub open spec fn query_range_url_text(
    endpoint: Seq<char>,
    device: Seq<char>,
    start: Seq<char>,
    end: Seq<char>,
    step: Seq<char>,
) -> Seq<char> {
    endpoint + "api/v1/query_range?query="@ + metric_query_text(device) + "&start="@ + start
        + "&end="@ + end + "&step="@ + step
}

impl QueryRangeParams {
    /// The Prometheus URL that answers these parameters.
    pub open spec fn spec_url(&self, endpoint: Seq<char>) -> Seq<char> {
        query_range_url_text(endpoint, self.device_id@, self.start@, self.end@, self.step@)
    }
}

/// The PromQL selector of a device's temperature.
pub fn metric_query(device_id: &str) -> (r: String)
    ensures
        r@ == metric_query_text(device_id@),
        r@.len() == device_id@.len() + 26,
        r@.subrange(24, device_id@.len() as int + 24) == device_id@,
{
    let mut r = "temperature_celsius{id=\"".to_owned();
    r.append(device_id);
    r.append("\"}");
    proof {
        lemma_selector_holds_device(device_id@);
    }
    r
}

/// The Prometheus `query_range` URL for the request's parameters.
pub fn query_range_url(endpoint: &str, params: &QueryRangeParams) -> (r: String)
    ensures
        r@ == params.spec_url(endpoint@),
{
    let mut r = endpoint.to_owned();
    r.append("api/v1/query_range?query=");
    let query = metric_query(params.device_id.as_str());
    r.append(query.as_str());
    r.append("&start=");
    r.append(params.start.as_str());
    r.append("&end=");
    r.append(params.end.as_str());
    r.append("&step=");
    r.append(params.step.as_str());
    r
}

/// The Prometheus base URL given on the command line, as the URL parser
/// reads it; `None` where it is no URL.
pub fn prometheus_endpoint(raw: &str) -> (r: Option<String>)
    ensures
        r is Some <==> parsed_url(raw@) is Some,
        r matches Some(s) ==> parsed_url(raw@) == Some(s@),
{
    match parse_url(raw) {
        Ok(url) => Some(url.as_str().to_owned()),
        Err(_) => None,
    }
}

/// A reply to the client: a status code and a body.
pub struct Reply {
    pub status: u16,
    pub body: String,
}

/// Whether `action` answers the client with `status` and `body`.
pub open spec fn responds(action: QueryAction, status: u16, body: Seq<char>) -> bool {
    action matches QueryAction::Respond(reply) && reply.status == status && reply.body@ == body
}

/// Where the handling of a `query_range` request stands.
#[derive(Clone, Copy, PartialEq, Eq, Structural, Debug)]
pub enum QueryPhase {
    /// Waiting for the id of the user named in the request.
    ResolvingUser,
    /// Waiting for the answer to "does the user own the device".
    CheckingOwnership,
    /// Waiting for Prometheus's status.
    QueryingPrometheus,
    /// Waiting for Prometheus's body.
    ReadingBody,
    /// The client has been answered.
    Answered,
    /// A failure the service does not survive.
    Aborted,
}

/// What the last requested step came back with.
pub enum QueryEvent {
    /// The id of the user (found or created).
    UserResolved(u128),
    /// The answer of the ownership query.
    OwnershipChecked(Option<bool>),
    /// Prometheus's status code, or `None` where it could not be reached.
    PrometheusAnswered(Option<u16>),
    /// Prometheus's body, or `None` where it could not be read.
    BodyRead(Option<String>),
    /// A database step failed.
    Failed,
}

/// The next thing to do.
pub enum QueryAction {
    /// Answer the client.
    Respond(Reply),
    /// Find or create the user with this e-mail.
    ResolveUser { email: String },
    /// Ask whether this user owns this device.
    CheckOwnership { user_id: u128, device_id: String },
    /// Send a GET request to this URL.
    QueryPrometheus { url: String },
    /// Read the body of Prometheus's reply.
    ReadBody,
    /// Stop the service: this failure is not recoverable.
    Abort,
    /// Nothing: the event does not answer a pending step.
    Ignore,
}

/// The first decision on a request, from the raw value of its
/// `x-auth-request-user` header.
pub open spec fn query_start(header: Option<Seq<u8>>, next: QueryPhase, action: QueryAction) -> bool {
    match header {
        None => next == QueryPhase::Answered && responds(action, STATUS_UNAUTHORIZED, "Missing auth header"@),
        Some(bytes) => match header_text_of(bytes) {
            None => next == QueryPhase::Answered && responds(action, STATUS_BAD_REQUEST, "Invalid user header"@),
            Some(email) => {
                &&& next == QueryPhase::ResolvingUser
                &&& action matches QueryAction::ResolveUser { email: e } && e@ == email
            },
        },
    }
}

/// One transition of a request for `device` whose Prometheus URL is `url`:
/// from `phase`, on `event`, to `next` with `action`.
pub open spec fn query_step(
    phase: QueryPhase,
    event: QueryEvent,
    device: Seq<char>,
    url: Seq<char>,
    next: QueryPhase,
    action: QueryAction,
) -> bool {
    match (phase, event) {
        (QueryPhase::ResolvingUser, QueryEvent::UserResolved(id)) => {
            &&& next == QueryPhase::CheckingOwnership
            &&& action matches QueryAction::CheckOwnership { user_id, device_id } && user_id == id
                && device_id@ == device
        },
        (QueryPhase::CheckingOwnership, QueryEvent::OwnershipChecked(answer)) => if answer == Some(true) {
            &&& next == QueryPhase::QueryingPrometheus
            &&& action matches QueryAction::QueryPrometheus { url: u } && u@ == url
        } else {
            next == QueryPhase::Answered && responds(action, STATUS_FORBIDDEN, "Forbidden"@)
        },
        (QueryPhase::QueryingPrometheus, QueryEvent::PrometheusAnswered(None)) => {
            next == QueryPhase::Answered && responds(action, STATUS_BAD_GATEWAY, "Failed to contact Prometheus"@)
        },
        (QueryPhase::QueryingPrometheus, QueryEvent::PrometheusAnswered(Some(code))) => if success_class(code) {
            next == QueryPhase::ReadingBody && action is ReadBody
        } else {
            next == QueryPhase::Answered && responds(action, STATUS_BAD_GATEWAY, "Prometheus query failed"@)
        },
        (QueryPhase::ReadingBody, QueryEvent::BodyRead(body)) => {
            &&& next == QueryPhase::Answered
            &&& responds(action, STATUS_OK, match body { Some(b) => b@, None => "{}"@ })
        },
        (QueryPhase::ResolvingUser, QueryEvent::Failed) | (QueryPhase::CheckingOwnership, QueryEvent::Failed) => {
            next == QueryPhase::Aborted && action is Abort
        },
        _ => next == phase && action is Ignore,
    }
}

/// One `query_range` request being handled.
pub struct QueryRangeRequest {
    params: QueryRangeParams,
    endpoint: String,
    phase: QueryPhase,
}

impl QueryRangeRequest {
    /// The request's parameters.
    pub closed spec fn spec_params(&self) -> QueryRangeParams {
        self.params
    }

    /// The Prometheus base URL.
    pub closed spec fn spec_endpoint(&self) -> Seq<char> {
        self.endpoint@
    }

    /// Where the request stands.
    pub closed spec fn spec_phase(&self) -> QueryPhase {
        self.phase
    }

    /// Starts handling a request from its parameters, the Prometheus base URL
    /// and the raw value of its `x-auth-request-user` header.
    pub fn start(endpoint: String, params: QueryRangeParams, user_header: Option<Vec<u8>>) -> (r: (
        QueryRangeRequest,
        QueryAction,
    ))
        ensures
            r.0.spec_params() == params,
            r.0.spec_endpoint() == endpoint@,
            query_start(
                match user_header {
                    Some(v) => Some(v@),
                    None => None,
                },
                r.0.spec_phase(),
                r.1,
            ),
    {
        let (phase, action) = match user_header {
            None => (
                QueryPhase::Answered,
                QueryAction::Respond(Reply { status: STATUS_UNAUTHORIZED, body: "Missing auth header".to_owned() }),
            ),
            Some(bytes) => match header_text(bytes.as_slice()) {
                None => (
                    QueryPhase::Answered,
                    QueryAction::Respond(Reply { status: STATUS_BAD_REQUEST, body: "Invalid user header".to_owned() }),
                ),
                Some(email) => (QueryPhase::ResolvingUser, QueryAction::ResolveUser { email }),
            },
        };
        (QueryRangeRequest { params, endpoint, phase }, action)
    }

    /// Where the request stands.
    pub fn phase(&self) -> (r: QueryPhase)
        ensures
            r == self.spec_phase(),
    {
        self.phase
    }

    /// Takes the outcome of the pending step and says what to do next.
    pub fn step(&mut self, event: QueryEvent) -> (action: QueryAction)
        ensures
            final(self).spec_params() == old(self).spec_params(),
            final(self).spec_endpoint() == old(self).spec_endpoint(),
            query_step(
                old(self).spec_phase(),
                event,
                old(self).spec_params().device_id@,
                old(self).spec_params().spec_url(old(self).spec_endpoint()),
                final(self).spec_phase(),
                action,
            ),
            old(self).spec_phase() == QueryPhase::ResolvingUser ==> (event matches QueryEvent::UserResolved(id)
                ==> (action matches QueryAction::CheckOwnership { user_id, device_id } && user_id == id
                && device_id@ == old(self).spec_params().device_id@)),
    {
        match (self.phase, event) {
            (QueryPhase::ResolvingUser, QueryEvent::UserResolved(id)) => {
                self.phase = QueryPhase::CheckingOwnership;
                QueryAction::CheckOwnership { user_id: id, device_id: self.params.device_id.clone() }
            },
            (QueryPhase::CheckingOwnership, QueryEvent::OwnershipChecked(answer)) => {
                if device_ownership(answer) {
                    self.phase = QueryPhase::QueryingPrometheus;
                    QueryAction::QueryPrometheus { url: query_range_url(self.endpoint.as_str(), &self.params) }
                } else {
                    self.phase = QueryPhase::Answered;
                    QueryAction::Respond(Reply { status: STATUS_FORBIDDEN, body: "Forbidden".to_owned() })
                }
            },
            (QueryPhase::QueryingPrometheus, QueryEvent::PrometheusAnswered(None)) => {
                self.phase = QueryPhase::Answered;
                QueryAction::Respond(
                    Reply { status: STATUS_BAD_GATEWAY, body: "Failed to contact Prometheus".to_owned() },
                )
            },
            (QueryPhase::QueryingPrometheus, QueryEvent::PrometheusAnswered(Some(code))) => {
                if is_success_status(code) {
                    self.phase = QueryPhase::ReadingBody;
                    QueryAction::ReadBody
                } else {
                    self.phase = QueryPhase::Answered;
                    QueryAction::Respond(
                        Reply { status: STATUS_BAD_GATEWAY, body: "Prometheus query failed".to_owned() },
                    )
                }
            },
            (QueryPhase::ReadingBody, QueryEvent::BodyRead(body)) => {
                self.phase = QueryPhase::Answered;
                let body = match body {
                    Some(b) => b,
                    None => "{}".to_owned(),
                };
                QueryAction::Respond(Reply { status: STATUS_OK, body })
            },
            (QueryPhase::ResolvingUser, QueryEvent::Failed) | (QueryPhase::CheckingOwnership, QueryEvent::Failed) => {
                self.phase = QueryPhase::Aborted;
                QueryAction::Abort
            },
            _ => QueryAction::Ignore,
        }
    }
}

/// A request is sent to Prometheus only from the ownership check, and only
/// when that check answered that the user owns the device.
pub proof fn lemma_prometheus_only_after_ownership(
    phase: QueryPhase,
    event: QueryEvent,
    device: Seq<char>,
    url: Seq<char>,
    next: QueryPhase,
    action: QueryAction,
)
    requires
        query_step(phase, event, device, url, next, action),
        action is QueryPrometheus,
    ensures
        phase == QueryPhase::CheckingOwnership,
        event == QueryEvent::OwnershipChecked(Some(true)),
        action matches QueryAction::QueryPrometheus { url: u } && u@ == url,
{
}

/// A user who is not known to own the device is answered `403 Forbidden`,
/// and the request is over.
pub proof fn lemma_refused_request_is_forbidden(
    answer: Option<bool>,
    device: Seq<char>,
    url: Seq<char>,
    next: QueryPhase,
    action: QueryAction,
)
    requires
        query_step(QueryPhase::CheckingOwnership, QueryEvent::OwnershipChecked(answer), device, url, next, action),
        answer != Some(true),
    ensures
        responds(action, STATUS_FORBIDDEN, "Forbidden"@),
        next == QueryPhase::Answered,
{
}

/// A request that has been answered, or aborted, does nothing more, whatever
/// comes back.
pub proof fn lemma_finished_request_is_inert(
    phase: QueryPhase,
    event: QueryEvent,
    device: Seq<char>,
    url: Seq<char>,
    next: QueryPhase,
    action: QueryAction,
)
    requires
        query_step(phase, event, device, url, next, action),
        phase == QueryPhase::Answered || phase == QueryPhase::Aborted,
    ensures
        next == phase,
        action is Ignore,
{
}

/// A request without a usable user header is answered at once (`401` when
/// the header is missing, `400` when it is not text) and nothing else is
/// done for it afterwards.
pub proof fn lemma_unidentified_request_goes_no_further(
    header: Option<Seq<u8>>,
    first: QueryPhase,
    first_action: QueryAction,
    event: QueryEvent,
    device: Seq<char>,
    url: Seq<char>,
    next: QueryPhase,
    action: QueryAction,
)
    requires
        query_start(header, first, first_action),
        header is None || header_text_of(header->0) is None,
        query_step(first, event, device, url, next, action),
    ensures
        header is None ==> responds(first_action, STATUS_UNAUTHORIZED, "Missing auth header"@),
        header is Some ==> responds(first_action, STATUS_BAD_REQUEST, "Invalid user header"@),
        next == QueryPhase::Answered,
        action is Ignore,
{
}

/// Prometheus's answer is relayed: a success status leads to reading the body,
/// which the client gets with `200` (or `{}` where it cannot be read); any
/// other outcome is answered `502`.
pub proof fn lemma_prometheus_answer_relayed(
    phase: QueryPhase,
    event: QueryEvent,
    device: Seq<char>,
    url: Seq<char>,
    next: QueryPhase,
    action: QueryAction,
)
    requires
        query_step(phase, event, device, url, next, action),
        phase == QueryPhase::QueryingPrometheus || phase == QueryPhase::ReadingBody,
        !(action is Ignore),
    ensures
        phase == QueryPhase::QueryingPrometheus ==> {
            ||| event matches QueryEvent::PrometheusAnswered(Some(code)) && success_class(code) && action is ReadBody
            ||| responds(action, STATUS_BAD_GATEWAY, "Failed to contact Prometheus"@)
            ||| responds(action, STATUS_BAD_GATEWAY, "Prometheus query failed"@)
        },
        phase == QueryPhase::ReadingBody ==> (event matches QueryEvent::BodyRead(body) && responds(
            action,
            STATUS_OK,
            match body {
                Some(b) => b@,
                None => "{}"@,
            },
        )),
{
}

/// The selector names the whole device id, unchanged, between
/// `temperature_celsius{id="` and `"}`.
pub proof fn lemma_selector_holds_device(device: Seq<char>)
    ensures
        metric_query_text(device).len() == device.len() + 26,
        metric_query_text(device).subrange(0, 24) == "temperature_celsius{id=\""@,
        metric_query_text(device).subrange(24, device.len() as int + 24) == device,
        metric_query_text(device).subrange(device.len() as int + 24, device.len() as int + 26) == "\"}"@,
{
    reveal_strlit("temperature_celsius{id=\"");
    reveal_strlit("\"}");
    let t = metric_query_text(device);
    assert(t.subrange(0, 24) =~= "temperature_celsius{id=\""@);
    assert(t.subrange(24, device.len() as int + 24) =~= device);
    assert(t.subrange(device.len() as int + 24, device.len() as int + 26) =~= "\"}"@);
}

/// Two devices get the same selector only when they are the same device.
pub proof fn lemma_selector_distinguishes_devices(first: Seq<char>, second: Seq<char>)
    ensures
        metric_query_text(first) == metric_query_text(second) ==> first == second,
{
    lemma_selector_holds_device(first);
    lemma_selector_holds_device(second);
}

/// Ownership is asked for exactly the id that the user lookup gave, and for
/// the request's own device.
pub proof fn lemma_ownership_asked_for_resolved_user(
    id: u128,
    device: Seq<char>,
    url: Seq<char>,
    next: QueryPhase,
    action: QueryAction,
)
    requires
        query_step(QueryPhase::ResolvingUser, QueryEvent::UserResolved(id), device, url, next, action),
    ensures
        action matches QueryAction::CheckOwnership { user_id, device_id } && user_id == id && device_id@ == device,
        next == QueryPhase::CheckingOwnership,
{
}

} // verus!
