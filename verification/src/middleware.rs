//! Enforcement: from a request's identifying data to the decision on it and
//! the response data that the decision calls for.
//!
//! The middleware never touches a request or a response itself. The server
//! hands it the API key and the peer address of a request, as far as the
//! request has them, and carries out the action that comes back: it forwards
//! the request and adds the headers to the handler's response, or answers at
//! once with the rejection.

use crate::decimal::decimal;
use crate::decimal::to_decimal;
use crate::limiter::Decision;
use crate::limiter::RateLimiter;
use crate::limiter::Report;
use vstd::prelude::*;
use vstd::string::StringExecFns;

verus! {

/// Request header that carries a client's API key.
pub const API_KEY_HEADER: &'static str = "x-api-key";

/// Identity of a client that sent no API key and has no peer address.
pub const UNKNOWN_CLIENT: &'static str = "unknown_client";

/// Response header that carries the limit.
pub const LIMIT_HEADER: &'static str = "x-ratelimit-limit";

/// Response header that carries the whole tokens left.
pub const REMAINING_HEADER: &'static str = "x-ratelimit-remaining";

/// Response header that carries the seconds until the bucket is full.
pub const RESET_HEADER: &'static str = "x-ratelimit-reset";

/// Response header that tells a rejected client when to try again.
pub const RETRY_AFTER_HEADER: &'static str = "retry-after";

/// Start of the body of a rejection; the client identity follows.
pub const REJECTION_PREFIX: &'static str = "rate limit exceeded for client ";

/// Status of a rejection: too many requests.
pub const TOO_MANY_REQUESTS: u16 = 429;

/// A response header.
#[derive(Debug)]
pub struct Header {
    pub name: String,
    pub value: String,
}

impl View for Header {
    type V = (Seq<char>, Seq<char>);

    open spec fn view(&self) -> (Seq<char>, Seq<char>) {
        (self.name@, self.value@)
    }
}

/// What the server does with a request.
#[derive(Debug)]
pub enum Action {
    /// Forward the request to its handler, unchanged, and add the headers to
    /// the handler's response.
    Forward { headers: Vec<Header> },
    /// Do not call the handler: answer with this status, headers and body.
    Reject { status: u16, headers: Vec<Header>, body: String },
}

/// An action as mathematical values.
pub enum ActionView {
    Forward { headers: Seq<(Seq<char>, Seq<char>)> },
    Reject { status: nat, headers: Seq<(Seq<char>, Seq<char>)>, body: Seq<char> },
}

/// Headers as pairs of name and value.
pub open spec fn header_views(headers: Seq<Header>) -> Seq<(Seq<char>, Seq<char>)> {
    headers.map_values(|header: Header| header@)
}

impl View for Action {
    type V = ActionView;

    open spec fn view(&self) -> ActionView {
        match self {
            Action::Forward { headers } => ActionView::Forward { headers: header_views(headers@) },
            Action::Reject { status, headers, body } => ActionView::Reject {
                status: *status as nat,
                headers: header_views(headers@),
                body: body@,
            },
        }
    }
}

/// The identity under which a request is counted: the API key if the request
/// has one, else the peer address if there is one, else the fixed identity of
/// unknown clients.
pub open spec fn identity(api_key: Option<String>, peer_addr: Option<String>) -> Seq<char> {
    match api_key {
        Some(key) => key@,
        None => match peer_addr {
            Some(addr) => addr@,
            None => UNKNOWN_CLIENT@,
        },
    }
}

/// The three headers that every response carries, in order: limit, whole
/// tokens left, seconds until full, each in decimal.
pub open spec fn annotation(report: Report) -> Seq<(Seq<char>, Seq<char>)> {
    seq![
        (LIMIT_HEADER@, decimal(report.limit)),
        (REMAINING_HEADER@, decimal(report.remaining)),
        (RESET_HEADER@, decimal(report.reset_seconds)),
    ]
}

/// The body of a rejection, which names the rejected client.
pub open spec fn rejection_text(client: Seq<char>) -> Seq<char> {
    REJECTION_PREFIX@ + client
}

/// The action that a decision calls for.
pub open spec fn action_of(client: Seq<char>, report: Report) -> ActionView {
    if report.allowed {
        ActionView::Forward { headers: annotation(report) }
    } else {
        ActionView::Reject {
            status: TOO_MANY_REQUESTS as nat,
            headers: annotation(report).push((RETRY_AFTER_HEADER@, decimal(report.reset_seconds))),
            body: rejection_text(client),
        }
    }
}

/// The identity under which a request is counted.
pub fn client_identity(api_key: Option<String>, peer_addr: Option<String>) -> (client_id: String)
    ensures
        client_id@ == identity(api_key, peer_addr),
{
    match api_key {
        Some(key) => key,
        None => match peer_addr {
            Some(addr) => addr,
            None => String::from_str(UNKNOWN_CLIENT),
        },
    }
}

/// A header with the given name and the decimal text of `value`.
fn number_header(name: &str, value: u64) -> (header: Header)
    ensures
        header@ == (name@, decimal(value as nat)),
{
    Header { name: String::from_str(name), value: to_decimal(value) }
}

/// The headers that report a decision.
pub fn rate_limit_headers(decision: &Decision) -> (headers: Vec<Header>)
    ensures
        header_views(headers@) == annotation(decision@),
{
    let mut headers: Vec<Header> = Vec::new();
    headers.push(number_header(LIMIT_HEADER, decision.limit));
    headers.push(number_header(REMAINING_HEADER, decision.remaining));
    headers.push(number_header(RESET_HEADER, decision.reset_seconds));
    assert(header_views(headers@) =~= annotation(decision@));
    headers
}

/// The body of the rejection of `client_id`.
pub fn rejection_body(client_id: &str) -> (body: String)
    ensures
        body@ == rejection_text(client_id@),
{
    String::from_str(REJECTION_PREFIX).concat(client_id)
}

/// The action on a request of `client_id` that the limiter decided as
/// `decision`.
pub fn enforce(client_id: &str, decision: &Decision) -> (action: Action)
    ensures
        action@ == action_of(client_id@, decision@),
{
    let mut headers = rate_limit_headers(decision);
    if decision.allowed {
        Action::Forward { headers }
    } else {
        headers.push(number_header(RETRY_AFTER_HEADER, decision.reset_seconds));
        assert(header_views(headers@) =~= annotation(decision@).push(
            (RETRY_AFTER_HEADER@, decimal(decision@.reset_seconds)),
        ));
        Action::Reject { status: TOO_MANY_REQUESTS, headers, body: rejection_body(client_id) }
    }
}

/// The middleware as it is configured: a limiter to enforce.
pub struct RateLimitMiddleware<L: RateLimiter> {
    pub limiter: L,
}

/// The middleware as it serves requests.
pub struct RateLimitMiddlewareService<L: RateLimiter> {
    limiter: L,
}

impl<L: RateLimiter> RateLimitMiddleware<L> {
    /// The service that enforces this middleware's limiter.
    pub fn new_transform(self) -> (service: RateLimitMiddlewareService<L>)
        ensures
            service.limiter() == self.limiter,
    {
        RateLimitMiddlewareService { limiter: self.limiter }
    }
}

impl<L: RateLimiter> RateLimitMiddlewareService<L> {
    /// The limiter that the service enforces.
    pub closed spec fn limiter(&self) -> L {
        self.limiter
    }

    /// Handles one request, given its API key and peer address as far as it
    /// has them: identifies the client, asks the limiter once, and returns
    /// the action that the limiter's decision calls for.
    pub fn call(&mut self, api_key: Option<String>, peer_addr: Option<String>) -> (action: Action)
        ensures
            exists|decision: Decision|
                {
                    &&& #[trigger] old(self).limiter().may_decide(
                        identity(api_key, peer_addr),
                        decision,
                        &final(self).limiter(),
                    )
                    &&& decision.remaining <= decision.limit
                    &&& action@ == action_of(identity(api_key, peer_addr), decision@)
                },
    {
        let client_id = client_identity(api_key, peer_addr);
        let decision = self.limiter.is_allowed(client_id.as_str());
        let action = enforce(client_id.as_str(), &decision);
        assert(old(self).limiter().may_decide(
            identity(api_key, peer_addr),
            decision,
            &self.limiter(),
        ));
        action
    }
}

} // verus!
