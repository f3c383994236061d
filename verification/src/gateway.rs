//! The auth gateway's decision logic. Each flow is split into the decision
//! before the outbound call and the mapping of its outcome, so that every
//! rule is verified while the HTTP transport merely carries values:
//!
//! - Login redirect: `plan_login` gates the caller-supplied callback through
//!   the validator — no outbound call is planned for a missing or invalid
//!   callback — and `finish_login` turns the outcome of the call into a
//!   redirect or a server error.
//! - Identity lookup: `plan_identity` picks the bearer token (the query
//!   parameter wins over the header) or refuses when there is none, and
//!   `finish_identity` parses the outcome into a `UserIdentity` or a uniform
//!   authorization failure.

use vstd::prelude::*;

use crate::identity::UserIdentity;
use crate::identity::spec_parse_identity;
use crate::identity::parse_identity;
use crate::validator::AllowedDomainSet;
use crate::validator::spec_is_valid_callback;
use crate::validator::is_valid_callback;

verus! {

/// Client error: malformed or missing input, or a rejected callback.
pub const STATUS_BAD_REQUEST: u16 = 400;
/// Authorization failure: any failed identity lookup, uniformly.
pub const STATUS_UNAUTHORIZED: u16 = 401;
/// The redirect into the single-sign-on flow.
pub const STATUS_FOUND: u16 = 302;
/// Upstream failure after a valid login request was accepted.
pub const STATUS_SERVER_ERROR: u16 = 500;
/// A successful identity lookup.
pub const STATUS_OK: u16 = 200;

/// What the login redirect flow decides before any network interaction.
pub enum LoginAction {
    /// The callback was missing or failed validation: answer with a client
    /// error and make no outbound call.
    Reject,
    /// The callback is a trusted redirect target: query the identity
    /// service's SSO-link endpoint with exactly this callback.
    Query(Vec<u8>),
}

/// How the login redirect flow ends once the outbound call came back.
pub enum LoginResponse {
    /// Redirect the browser to the login URL the identity service returned.
    Redirect(Vec<u8>),
    /// The outbound call failed after the request had been accepted.
    ServerError,
}

/// What the identity lookup flow decides before any network interaction.
pub enum IdentityAction {
    /// Neither token source was present: answer with a client error and
    /// make no outbound call.
    MissingToken,
    /// Look the user up with exactly this bearer token.
    Lookup(Vec<u8>),
}

/// How the identity lookup flow ends once the outbound call came back.
pub enum IdentityResponse {
    /// The response body parsed against the wire schema.
    Granted(UserIdentity),
    /// The call failed or its body did not fit the schema; the cause is
    /// deliberately not distinguished.
    Unauthorized,
}

/// The token the lookup uses: the query parameter when present, else the
/// `Authorization` header.
pub open spec fn selected_token(query: Option<Vec<u8>>, header: Option<Vec<u8>>) -> Option<
    Vec<u8>,
> {
    if query is Some {
        query
    } else {
        header
    }
}

/// Gate of the login redirect flow: validation happens here, before any
/// network interaction, and an outbound query is planned exactly for a
/// callback the validator accepts — which it carries unchanged.
pub fn plan_login(callback: Option<Vec<u8>>, allowed: &AllowedDomainSet) -> (r: LoginAction)
    ensures
        match callback {
            None => r is Reject,
            Some(cb) => if spec_is_valid_callback(cb@, allowed@) {
                r == LoginAction::Query(cb)
            } else {
                r is Reject
            },
        },
{
    match callback {
        None => LoginAction::Reject,
        Some(cb) => {
            if is_valid_callback(cb.as_slice(), allowed) {
                LoginAction::Query(cb)
            } else {
                LoginAction::Reject
            }
        },
    }
}

/// End of the login redirect flow: the response body of a successful call
/// is taken as an opaque login URL and redirected to unchanged; a failed
/// call is a server error, distinct from the client error of a rejected
/// callback.
pub fn finish_login(outcome: Option<Vec<u8>>) -> (r: LoginResponse)
    ensures
        match outcome {
            Some(body) => r == LoginResponse::Redirect(body),
            None => r is ServerError,
        },
{
    match outcome {
        Some(body) => LoginResponse::Redirect(body),
        None => LoginResponse::ServerError,
    }
}

/// Gate of the identity lookup flow: the query-parameter token is preferred
/// over the header token; with neither present the flow refuses before any
/// outbound call.
pub fn plan_identity(query: Option<Vec<u8>>, header: Option<Vec<u8>>) -> (r: IdentityAction)
    ensures
        match selected_token(query, header) {
            None => r is MissingToken,
            Some(t) => r == IdentityAction::Lookup(t),
        },
{
    match query {
        Some(t) => IdentityAction::Lookup(t),
        None => match header {
            Some(t) => IdentityAction::Lookup(t),
            None => IdentityAction::MissingToken,
        },
    }
}

/// End of the identity lookup flow: a failed call and a body outside the
/// wire schema surface as the same authorization failure, and a parsed body
/// yields exactly the record the schema gives for it.
pub fn finish_identity(outcome: Option<Vec<u8>>) -> (r: IdentityResponse)
    ensures
        match outcome {
            None => r is Unauthorized,
            Some(body) => match spec_parse_identity(body@) {
                None => r is Unauthorized,
                Some(u) => r matches IdentityResponse::Granted(id) && id@ == u,
            },
        },
{
    match outcome {
        None => IdentityResponse::Unauthorized,
        Some(body) => match parse_identity(body.as_slice()) {
            None => IdentityResponse::Unauthorized,
            Some(u) => IdentityResponse::Granted(u),
        },
    }
}

/// The states of one login redirect request, as the flow passes through
/// them: `Received` → validate → `Rejected` or `Querying` → the outbound
/// call comes back → `Redirecting` or `Failed`. `Rejected`, `Redirecting`
/// and `Failed` are terminal; there are no retries.
pub enum LoginFlowState {
    /// The request as it came in, with the callback parameter if any.
    Received(Option<Vec<u8>>),
    /// Terminal: the callback was missing or invalid; client error.
    Rejected,
    /// The validated callback, about to be sent to the SSO-link endpoint.
    /// This is the only state that issues an outbound call.
    Querying(Vec<u8>),
    /// Terminal: redirect the browser to the login URL that came back.
    Redirecting(Vec<u8>),
    /// Terminal: the outbound call failed; server error.
    Failed,
}

/// The states in which the request is answered and the flow stops.
pub open spec fn login_flow_terminal(s: LoginFlowState) -> bool {
    s is Rejected || s is Redirecting || s is Failed
}

/// The flow's invariant: the querying state — the one state that issues an
/// outbound call — holds a callback the validator accepted. No unvalidated
/// string ever becomes a redirect target.
pub open spec fn login_flow_inv(s: LoginFlowState, domains: Seq<Seq<u8>>) -> bool {
    match s {
        LoginFlowState::Querying(cb) => spec_is_valid_callback(cb@, domains),
        _ => true,
    }
}

/// A login redirect request enters the flow in the received state.
pub fn login_flow_start(callback: Option<Vec<u8>>) -> (s: LoginFlowState)
    ensures
        s == LoginFlowState::Received(callback),
{
    LoginFlowState::Received(callback)
}

/// The validation transition, before any network interaction: a received
/// request steps to querying exactly when it carries a callback the
/// validator accepts — carried unchanged — and to the terminal rejected
/// state otherwise. The invariant is established here and an invalid
/// callback can never reach the querying state.
pub fn login_flow_validate(s: LoginFlowState, allowed: &AllowedDomainSet) -> (r: LoginFlowState)
    requires
        s is Received,
    ensures
        match s {
            LoginFlowState::Received(cb) => r == if callback_admitted(cb, allowed@) {
                LoginFlowState::Querying(cb->0)
            } else {
                LoginFlowState::Rejected
            },
            _ => false,
        },
        login_flow_inv(r, allowed@),
{
    match s {
        LoginFlowState::Received(cb) => match plan_login(cb, allowed) {
            LoginAction::Query(q) => LoginFlowState::Querying(q),
            LoginAction::Reject => LoginFlowState::Rejected,
        },
        _ => LoginFlowState::Rejected,
    }
}

/// Whether a received callback may be queried: present and valid.
pub open spec fn callback_admitted(cb: Option<Vec<u8>>, domains: Seq<Seq<u8>>) -> bool {
    cb is Some && spec_is_valid_callback(cb->0@, domains)
}

/// The outcome transition: a single failure of the outbound call is
/// terminal for the request, and a success redirects to the returned login
/// URL unchanged.
pub fn login_flow_upstream(s: LoginFlowState, outcome: Option<Vec<u8>>) -> (r: LoginFlowState)
    requires
        s is Querying,
    ensures
        match outcome {
            Some(body) => r == LoginFlowState::Redirecting(body),
            None => r is Failed,
        },
        login_flow_terminal(r),
{
    match finish_login(outcome) {
        LoginResponse::Redirect(url) => LoginFlowState::Redirecting(url),
        LoginResponse::ServerError => LoginFlowState::Failed,
    }
}

/// Both transitions keep the flow's invariant, for every state and every
/// outcome of the outbound call: a callback that the validator did not
/// accept is never queried, from the first state to the last.
pub proof fn lemma_login_flow_inv_preserved(
    s: LoginFlowState,
    r: LoginFlowState,
    domains: Seq<Seq<u8>>,
    outcome: Option<Vec<u8>>,
)
    requires
        login_flow_inv(s, domains),
        ({
            ||| (s is Received && r == if callback_admitted(s->Received_0, domains) {
                LoginFlowState::Querying(s->Received_0->0)
            } else {
                LoginFlowState::Rejected
            })
            ||| (s is Querying && r == match outcome {
                Some(body) => LoginFlowState::Redirecting(body),
                None => LoginFlowState::Failed,
            })
        }),
    ensures
        login_flow_inv(r, domains),
        r is Querying ==> s is Received && callback_admitted(s->Received_0, domains),
{
}

/// HTTP status of a terminal login flow state.
pub fn login_flow_status(s: &LoginFlowState) -> (c: u16)
    requires
        login_flow_terminal(*s),
    ensures
        *s is Rejected ==> c == STATUS_BAD_REQUEST,
        *s is Redirecting ==> c == STATUS_FOUND,
        *s is Failed ==> c == STATUS_SERVER_ERROR,
{
    match s {
        LoginFlowState::Rejected => STATUS_BAD_REQUEST,
        LoginFlowState::Redirecting(_) => STATUS_FOUND,
        _ => STATUS_SERVER_ERROR,
    }
}

/// HTTP status a login decision settles before any outbound call: a
/// rejected callback is answered with a client error at once; a planned
/// query has no status yet.
pub fn login_action_status(a: &LoginAction) -> (s: Option<u16>)
    ensures
        match *a {
            LoginAction::Reject => s == Some(STATUS_BAD_REQUEST),
            LoginAction::Query(_) => s is None,
        },
{
    match a {
        LoginAction::Reject => Some(STATUS_BAD_REQUEST),
        LoginAction::Query(_) => None,
    }
}

/// HTTP status an identity decision settles before any outbound call: a
/// missing token is answered with a client error at once; a planned lookup
/// has no status yet.
pub fn identity_action_status(a: &IdentityAction) -> (s: Option<u16>)
    ensures
        match *a {
            IdentityAction::MissingToken => s == Some(STATUS_BAD_REQUEST),
            IdentityAction::Lookup(_) => s is None,
        },
{
    match a {
        IdentityAction::MissingToken => Some(STATUS_BAD_REQUEST),
        IdentityAction::Lookup(_) => None,
    }
}

/// HTTP status of a finished login redirect flow.
pub fn login_response_status(r: &LoginResponse) -> (s: u16)
    ensures
        r is Redirect ==> s == STATUS_FOUND,
        r is ServerError ==> s == STATUS_SERVER_ERROR,
{
    match r {
        LoginResponse::Redirect(_) => STATUS_FOUND,
        LoginResponse::ServerError => STATUS_SERVER_ERROR,
    }
}

/// HTTP status of a finished identity lookup flow.
pub fn identity_response_status(r: &IdentityResponse) -> (s: u16)
    ensures
        r is Granted ==> s == STATUS_OK,
        r is Unauthorized ==> s == STATUS_UNAUTHORIZED,
{
    match r {
        IdentityResponse::Granted(_) => STATUS_OK,
        IdentityResponse::Unauthorized => STATUS_UNAUTHORIZED,
    }
}

} // verus!
