//! The relay's answers: what `start`, `callback`, `poll` and `health` do to
//! the session registry and what they reply.
//!
//! Each handler is a function from the relay's state and the request's
//! plain values to the reply. The callback is split in two around the token
//! exchange, which the caller performs in between.

use crate::auth::can_settle;
use crate::auth::holds_no_session_id;
use crate::auth::is_session_id;
use crate::auth::live_sessions;
use crate::auth::new_session;
use crate::auth::settled;
use crate::auth::AuthState;
use crate::auth::AuthStateView;
use crate::auth::OAuthConfig;
use crate::auth::SessionMap;
use crate::auth::SessionStore;
use crate::encoding::html_escape;
use crate::encoding::html_escaped;
use crate::encoding::json_quote;
use crate::encoding::json_quoted;
use crate::text::text_of;
use crate::token::authorization_url_text;
use crate::token::token_reply_outcome;
use crate::token::TokenReply;
use crate::token::TokenReplyView;
use vstd::prelude::*;
use vstd::string::*;

verus! {

/// Status of a poll for a session the registry does not hold.
pub const NOT_FOUND: u16 = 404;

/// Said where a callback carries no `state`.
pub const MISSING_STATE: &'static str = "Missing state parameter";

/// Said where no session is filed under the id asked for.
pub const SESSION_NOT_FOUND: &'static str = "Session not found or expired";

/// Said where a callback arrives for a session that has settled already.
pub const SESSION_SETTLED: &'static str = "Session already completed";

/// Said where a callback carries neither an error nor a code.
pub const MISSING_CODE: &'static str = "Missing authorization code";

/// The page shown when the login succeeded.
pub const SUCCESS_PAGE: &'static str =
    "<!DOCTYPE html><html><head><title>ndl - Authorization Complete</title><style>body { font-family: -apple-system, BlinkMacSystemFont, 'Segoe UI', Roboto, sans-serif; display: flex; justify-content: center; align-items: center; height: 100vh; margin: 0; background: #0a0a0a; color: #fff; } .container { text-align: center; padding: 2rem; } h1 { color: #00d4aa; } p { color: #888; }</style></head><body><div class=\"container\"><h1>Authorization Complete</h1><p>You can close this window and return to ndl.</p></div></body></html>";

/// The page shown when the login failed, up to the reason.
pub const ERROR_PAGE_HEAD: &'static str =
    "<!DOCTYPE html><html><head><title>ndl - Authorization Failed</title><style>body { font-family: -apple-system, BlinkMacSystemFont, 'Segoe UI', Roboto, sans-serif; display: flex; justify-content: center; align-items: center; height: 100vh; margin: 0; background: #0a0a0a; color: #fff; } .container { text-align: center; padding: 2rem; } h1 { color: #ff4444; } p { color: #888; } .error { color: #ff8888; margin-top: 1rem; }</style></head><body><div class=\"container\"><h1>Authorization Failed</h1><p>Something went wrong during authentication.</p><p class=\"error\">";

/// The page shown when the login failed, after the reason.
pub const ERROR_PAGE_TAIL: &'static str = "</p></div></body></html>";

/// The failure page for `error`: the reason stands in it escaped, so that
/// no markup in it takes effect.
pub open spec fn error_page(error: Seq<char>) -> Seq<char> {
    ERROR_PAGE_HEAD@ + html_escaped(error) + ERROR_PAGE_TAIL@
}

/// The page shown when the login succeeded.
pub fn success_html() -> (page: &'static str)
    ensures
        page@ == SUCCESS_PAGE@,
{
    SUCCESS_PAGE
}

/// The page shown when the login failed for the reason `error`.
pub fn error_html(error: &str) -> (page: String)
    ensures
        page@ == error_page(error@),
{
    let mut page = String::from_str(ERROR_PAGE_HEAD);
    let escaped = html_escape(error);
    page.append(escaped.as_str());
    page.append(ERROR_PAGE_TAIL);
    page
}

/// What the relay works with: the session registry and its configuration.
pub struct AppState {
    pub sessions: SessionStore,
    pub oauth: OAuthConfig,
}

/// Reply to `start`.
#[derive(Debug, Clone)]
pub struct StartAuthResponse {
    pub session_id: String,
    pub auth_url: String,
}

/// The query of a callback.
#[derive(Debug, Clone)]
pub struct CallbackParams {
    pub code: Option<String>,
    pub state: Option<String>,
    pub error: Option<String>,
    pub error_description: Option<String>,
}

/// Reply to a poll for a session that is there.
#[derive(Debug, Clone)]
pub struct PollResponse {
    pub state: AuthState,
}

/// Body of a reply that reports an error.
#[derive(Debug, Clone)]
pub struct ErrorResponse {
    pub error: String,
}

/// Reply to `health`.
#[derive(Debug, Clone)]
pub struct HealthResponse {
    pub status: &'static str,
    pub version: &'static str,
    pub git: &'static str,
}

/// Liveness, with the version the relay was built from.
pub fn health(version: &'static str, git: &'static str) -> (r: HealthResponse)
    ensures
        r.status@ == "ok"@,
        r.version == version,
        r.git == git,
{
    HealthResponse { status: "ok", version, git }
}

/// Whether `reply` opens the login of session `id` for the relay `oauth`:
/// it names the id, and its address is the authorization address that
/// carries the id as its state.
pub open spec fn opens_login(reply: StartAuthResponse, oauth: OAuthConfig, id: Seq<char>) -> bool {
    &&& reply.session_id@ == id
    &&& reply.auth_url@ == authorization_url_text(
        oauth.client_id@,
        oauth.redirect_uri_text(),
        Some(id),
    )
}

/// Opens a login: files a new `Pending` session under `id`, created at
/// `now`, and replies with the id and the address to send the end user to,
/// which carries the id as its state. Where the registry holds a session
/// under `id` already, no login is opened and nothing changes.
pub fn start_auth_with(state: &mut AppState, id: String, now: u128) -> (r: Option<
    StartAuthResponse,
>)
    ensures
        r is Some <==> !old(state).sessions@.dom().contains(id@),
        r matches Some(reply) ==> opens_login(reply, old(state).oauth, id@)
            && final(state).sessions@ == old(state).sessions@.insert(
            id@,
            new_session(id@, now as nat),
        ),
        r is None ==> final(state).sessions@ == old(state).sessions@,
        final(state).oauth == old(state).oauth,
{
    match state.sessions.create_session_with(id, now) {
        Some(session) => {
            let auth_url = state.oauth.authorization_url(session.id.as_str());
            Some(StartAuthResponse { session_id: session.id, auth_url })
        },
        None => None,
    }
}

/// Opens a login under a random id that is new to the registry, at the
/// present reading of the registry's clock: the registry gains that one
/// session, `Pending`, and every other session is as it was. Where no new
/// id could be drawn, no login is opened and nothing changes.
///
/// A login is owed wherever no draw can be held: with a registry none of
/// whose keys has the shape of a session id, the empty one among them, the
/// login is opened.
pub fn start_auth(state: &mut AppState) -> (r: Option<StartAuthResponse>)
    ensures
        holds_no_session_id(old(state).sessions@) ==> r is Some,
        r matches Some(reply) ==> is_session_id(reply.session_id@)
            && !old(state).sessions@.dom().contains(reply.session_id@)
            && opens_login(reply, old(state).oauth, reply.session_id@)
            && (exists|now: nat|
            final(state).sessions@ == old(state).sessions@.insert(
                reply.session_id@,
                #[trigger] new_session(reply.session_id@, now),
            )),
        r is None ==> final(state).sessions@ == old(state).sessions@,
        final(state).oauth == old(state).oauth,
{
    match state.sessions.create_session() {
        Some(session) => {
            assert(session@ == new_session(session@.id, session@.created_at));
            let auth_url = state.oauth.authorization_url(session.id.as_str());
            Some(StartAuthResponse { session_id: session.id, auth_url })
        },
        None => None,
    }
}

/// Opening a login under an id that is new to the registry disturbs no
/// session: every session held before is held after, as it was, and the
/// new one is `Pending`.
pub proof fn lemma_start_keeps_sessions(m: SessionMap, id: Seq<char>, now: nat)
    requires
        !m.dom().contains(id),
    ensures
        m.insert(id, new_session(id, now)).dom() == m.dom().insert(id),
        m.insert(id, new_session(id, now))[id].state is Pending,
        forall|k: Seq<char>| #[trigger]
            m.dom().contains(k) ==> m.insert(id, new_session(id, now))[k] == m[k],
{
}

/// What a poll for `id` is answered with: the state of the session, or
/// nothing where the registry holds no such session.
pub open spec fn poll_answer(m: SessionMap, id: Seq<char>) -> Option<AuthStateView> {
    if m.dom().contains(id) {
        Some(m[id].state)
    } else {
        None
    }
}

/// The registry after a poll for `id`: a session read in a terminal state
/// is gone, everything else is as before.
pub open spec fn after_poll(m: SessionMap, id: Seq<char>) -> SessionMap {
    if m.dom().contains(id) && m[id].state.is_terminal() {
        m.remove(id)
    } else {
        m
    }
}

/// Answers a poll: the state of the session, or [`NOT_FOUND`] with an error
/// body. A session read in a terminal state is removed by this very call.
pub fn poll_auth(state: &mut AppState, session_id: &str) -> (r: Result<
    PollResponse,
    (u16, ErrorResponse),
>)
    ensures
        match poll_answer(old(state).sessions@, session_id@) {
            Some(held) => r matches Ok(reply) && reply.state@ == held,
            None => r matches Err(refusal) && refusal.0 == NOT_FOUND && refusal.1.error@
                == SESSION_NOT_FOUND@,
        },
        final(state).sessions@ == after_poll(old(state).sessions@, session_id@),
        final(state).oauth == old(state).oauth,
{
    match state.sessions.get_session(session_id) {
        None => Err((NOT_FOUND, ErrorResponse { error: String::from_str(SESSION_NOT_FOUND) })),
        Some(session) => {
            if session.state.is_terminal() {
                state.sessions.remove_session(session_id);
            }
            Ok(PollResponse { state: session.state })
        },
    }
}

/// Mathematical value of a [`CallbackParams`].
pub struct CallbackParamsView {
    pub code: Option<Seq<char>>,
    pub state: Option<Seq<char>>,
    pub error: Option<Seq<char>>,
    pub error_description: Option<Seq<char>>,
}

impl View for CallbackParams {
    type V = CallbackParamsView;

    open spec fn view(&self) -> CallbackParamsView {
        CallbackParamsView {
            code: text_of(self.code),
            state: text_of(self.state),
            error: text_of(self.error),
            error_description: text_of(self.error_description),
        }
    }
}

/// What the relay does next with a callback.
#[derive(Debug, Clone)]
pub enum CallbackStep {
    /// Nothing is left to do but to show this page.
    Reply { page: String },
    /// The code has to be exchanged for a token; the outcome goes to
    /// [`finish_callback`] together with the session id.
    Exchange { session_id: String, code: String },
}

/// Mathematical value of a [`CallbackStep`].
pub enum CallbackStepView {
    Reply { page: Seq<char> },
    Exchange { session_id: Seq<char>, code: Seq<char> },
}

impl View for CallbackStep {
    type V = CallbackStepView;

    open spec fn view(&self) -> CallbackStepView {
        match self {
            CallbackStep::Reply { page } => CallbackStepView::Reply { page: page@ },
            CallbackStep::Exchange { session_id, code } => CallbackStepView::Exchange {
                session_id: session_id@,
                code: code@,
            },
        }
    }
}

/// The reason a callback reports: the description where there is one, else
/// the error itself.
pub open spec fn reported_error(p: CallbackParamsView) -> Seq<char>
    recommends
        p.error is Some,
{
    match p.error_description {
        Some(text) => text,
        None => p.error->0,
    }
}

/// What a callback leads to, in this order: without `state`, or with one
/// under which no session is filed, an error page; for a session that has
/// settled, an error page; with an error from the provider, the page for
/// it; without a code, an error page; else the exchange of the code.
pub open spec fn callback_step(m: SessionMap, p: CallbackParamsView) -> CallbackStepView {
    match p.state {
        None => CallbackStepView::Reply { page: error_page(MISSING_STATE@) },
        Some(id) => {
            if !m.dom().contains(id) {
                CallbackStepView::Reply { page: error_page(SESSION_NOT_FOUND@) }
            } else if m[id].state.is_terminal() {
                CallbackStepView::Reply { page: error_page(SESSION_SETTLED@) }
            } else if p.error is Some {
                CallbackStepView::Reply { page: error_page(reported_error(p)) }
            } else {
                match p.code {
                    None => CallbackStepView::Reply { page: error_page(MISSING_CODE@) },
                    Some(code) => CallbackStepView::Exchange { session_id: id, code },
                }
            }
        },
    }
}

/// The registry after a callback: a `Pending` session fails with the
/// provider's error, or for want of a code; nothing else changes.
pub open spec fn after_callback(m: SessionMap, p: CallbackParamsView) -> SessionMap {
    match p.state {
        None => m,
        Some(id) => {
            if p.error is Some {
                settled(m, id, AuthStateView::Failed { error: reported_error(p) })
            } else if p.code is None {
                settled(m, id, AuthStateView::Failed { error: MISSING_CODE@ })
            } else {
                m
            }
        },
    }
}

/// Takes a callback from the provider as far as it goes without the token
/// exchange.
pub fn auth_callback(state: &mut AppState, params: CallbackParams) -> (step: CallbackStep)
    ensures
        step@ == callback_step(old(state).sessions@, params@),
        final(state).sessions@ == after_callback(old(state).sessions@, params@),
        final(state).oauth == old(state).oauth,
{
    let session_id = match params.state {
        Some(id) => id,
        None => {
            return CallbackStep::Reply { page: error_html(MISSING_STATE) };
        },
    };
    let session = match state.sessions.get_session(session_id.as_str()) {
        Some(s) => s,
        None => {
            return CallbackStep::Reply { page: error_html(SESSION_NOT_FOUND) };
        },
    };
    if session.state.is_terminal() {
        return CallbackStep::Reply { page: error_html(SESSION_SETTLED) };
    }
    match params.error {
        Some(error) => {
            let message = match params.error_description {
                Some(text) => text,
                None => error,
            };
            let page = error_html(message.as_str());
            state.sessions.settle(session_id.as_str(), AuthState::Failed { error: message });
            CallbackStep::Reply { page }
        },
        None => match params.code {
            None => {
                state.sessions.settle(
                    session_id.as_str(),
                    AuthState::Failed { error: String::from_str(MISSING_CODE) },
                );
                CallbackStep::Reply { page: error_html(MISSING_CODE) }
            },
            Some(code) => CallbackStep::Exchange { session_id, code },
        },
    }
}

/// The state an exchange settles a session into: `Completed` with the
/// token, or `Failed` with the error as text.
pub open spec fn exchange_state(reply: TokenReplyView) -> AuthStateView {
    match token_reply_outcome(reply) {
        Ok(token) => AuthStateView::Completed { access_token: token.access_token },
        Err(e) => AuthStateView::Failed { error: e.message() },
    }
}

/// The page that ends a callback after the exchange. A session that is
/// gone, or has settled meanwhile, gets an error page whatever the exchange
/// gave.
pub open spec fn finish_page(m: SessionMap, id: Seq<char>, reply: TokenReplyView) -> Seq<char> {
    if !m.dom().contains(id) {
        error_page(SESSION_NOT_FOUND@)
    } else if m[id].state.is_terminal() {
        error_page(SESSION_SETTLED@)
    } else {
        match token_reply_outcome(reply) {
            Ok(_) => SUCCESS_PAGE@,
            Err(e) => error_page(e.message()),
        }
    }
}

/// Ends a callback with the reply of the token endpoint: settles the
/// session, if it is still there and `Pending`, and returns the page to show.
pub fn finish_callback(state: &mut AppState, session_id: &str, reply: TokenReply) -> (page: String)
    ensures
        page@ == finish_page(old(state).sessions@, session_id@, reply@),
        final(state).sessions@ == settled(
            old(state).sessions@,
            session_id@,
            exchange_state(reply@),
        ),
        final(state).oauth == old(state).oauth,
{
    let outcome = state.oauth.exchange_code(reply);
    match state.sessions.get_session(session_id) {
        None => error_html(SESSION_NOT_FOUND),
        Some(session) => {
            if session.state.is_terminal() {
                error_html(SESSION_SETTLED)
            } else {
                match outcome {
                    Ok(token) => {
                        state.sessions.settle(
                            session_id,
                            AuthState::Completed { access_token: token.access_token },
                        );
                        String::from_str(success_html())
                    },
                    Err(message) => {
                        let page = error_html(message.as_str());
                        state.sessions.settle(session_id, AuthState::Failed { error: message });
                        page
                    },
                }
            }
        },
    }
}

/// The registry after `n` polls for `id` in a row.
pub open spec fn after_polls(m: SessionMap, id: Seq<char>, n: nat) -> SessionMap
    decreases n,
{
    if n == 0 {
        m
    } else {
        after_poll(after_polls(m, id, (n - 1) as nat), id)
    }
}

/// Once a poll has returned a terminal state, the session is gone: the next
/// poll for it finds nothing.
pub proof fn lemma_terminal_poll_is_last(m: SessionMap, id: Seq<char>)
    requires
        poll_answer(m, id) matches Some(held) && held.is_terminal(),
    ensures
        !after_poll(m, id).dom().contains(id),
        poll_answer(after_poll(m, id), id) is None,
{
}

/// A session that has settled stays as it is: neither a second settling nor
/// a callback of any kind changes the registry.
pub proof fn lemma_settled_is_final(
    m: SessionMap,
    id: Seq<char>,
    outcome: AuthStateView,
    p: CallbackParamsView,
    reply: TokenReplyView,
)
    requires
        m.dom().contains(id),
        m[id].state.is_terminal(),
        p.state == Some(id),
    ensures
        settled(m, id, outcome) == m,
        after_callback(m, p) == m,
        callback_step(m, p) is Reply,
        settled(m, id, exchange_state(reply)) == m,
{
}

/// Settling moves a `Pending` session into a terminal state and touches no
/// other session.
pub proof fn lemma_settle_reaches_terminal(m: SessionMap, id: Seq<char>, outcome: AuthStateView)
    requires
        can_settle(m, id, outcome),
    ensures
        settled(m, id, outcome)[id].state == outcome,
        settled(m, id, outcome)[id].state.is_terminal(),
        settled(m, id, outcome).dom() == m.dom(),
        forall|k: Seq<char>| k != id && m.dom().contains(k) ==> settled(m, id, outcome)[k] == m[k],
{
    assert(settled(m, id, outcome).dom() =~= m.dom());
}

/// Polling a `Pending` session, however often, changes nothing and keeps
/// answering `Pending`.
pub proof fn lemma_pending_polls_change_nothing(m: SessionMap, id: Seq<char>, n: nat)
    requires
        poll_answer(m, id) == Some(AuthStateView::Pending),
    ensures
        after_polls(m, id, n) == m,
        poll_answer(after_polls(m, id, n), id) == Some(AuthStateView::Pending),
    decreases n,
{
    if n > 0 {
        lemma_pending_polls_change_nothing(m, id, (n - 1) as nat);
    }
}

/// Only a terminal read removes a session: a poll that leaves the registry
/// changed has read a terminal state of the session it asked for.
pub proof fn lemma_only_terminal_read_removes(m: SessionMap, id: Seq<char>)
    ensures
        after_poll(m, id) != m ==> (poll_answer(m, id) matches Some(held) && held.is_terminal()),
        forall|k: Seq<char>| k != id && m.dom().contains(k) ==> after_poll(m, id).dom().contains(k),
{
}

/// The sweep removes every session older than the time to live, whatever
/// its state, and a poll for it then finds nothing; the sessions it keeps
/// are the ones not expired, unchanged.
pub proof fn lemma_sweep_purges_expired(m: SessionMap, id: Seq<char>, now: nat)
    ensures
        m.dom().contains(id) && m[id].is_expired(now) ==> !live_sessions(m, now).dom().contains(id)
            && poll_answer(live_sessions(m, now), id) is None,
        m.dom().contains(id) && !m[id].is_expired(now) ==> live_sessions(m, now).dom().contains(id)
            && live_sessions(m, now)[id] == m[id],
        !m.dom().contains(id) ==> !live_sessions(m, now).dom().contains(id),
{
}

/// The JSON document for the state of a session: the status, and with it
/// the token of a completed login or the error of a failed one.
pub open spec fn state_document(state: AuthStateView) -> Seq<char> {
    match state {
        AuthStateView::Pending => "{\"status\":\"pending\"}"@,
        AuthStateView::Completed { access_token } => "{\"status\":\"completed\",\"access_token\":"@
            + json_quoted(access_token) + "}"@,
        AuthStateView::Failed { error } => "{\"status\":\"failed\",\"error\":"@ + json_quoted(error)
            + "}"@,
    }
}

/// The body of the reply to a poll, as JSON.
pub fn poll_body(reply: &PollResponse) -> (body: String)
    ensures
        body@ == state_document(reply.state@),
{
    match &reply.state {
        AuthState::Pending => String::from_str("{\"status\":\"pending\"}"),
        AuthState::Completed { access_token } => {
            let mut body = String::from_str("{\"status\":\"completed\",\"access_token\":");
            let quoted = json_quote(access_token.as_str());
            body.append(quoted.as_str());
            body.append("}");
            body
        },
        AuthState::Failed { error } => {
            let mut body = String::from_str("{\"status\":\"failed\",\"error\":");
            let quoted = json_quote(error.as_str());
            body.append(quoted.as_str());
            body.append("}");
            body
        },
    }
}

/// The body of a reply that reports an error, as JSON.
pub fn error_body(reply: &ErrorResponse) -> (body: String)
    ensures
        body@ == "{\"error\":"@ + json_quoted(reply.error@) + "}"@,
{
    let mut body = String::from_str("{\"error\":");
    let quoted = json_quote(reply.error.as_str());
    body.append(quoted.as_str());
    body.append("}");
    body
}

/// The body of the reply to `start`, as JSON.
pub fn start_body(reply: &StartAuthResponse) -> (body: String)
    ensures
        body@ == "{\"session_id\":"@ + json_quoted(reply.session_id@) + ",\"auth_url\":"@
            + json_quoted(reply.auth_url@) + "}"@,
{
    let mut body = String::from_str("{\"session_id\":");
    let id = json_quote(reply.session_id.as_str());
    body.append(id.as_str());
    body.append(",\"auth_url\":");
    let url = json_quote(reply.auth_url.as_str());
    body.append(url.as_str());
    body.append("}");
    body
}

/// The body of the reply to `health`, as JSON.
pub fn health_body(reply: &HealthResponse) -> (body: String)
    ensures
        body@ == "{\"status\":"@ + json_quoted(reply.status@) + ",\"version\":"@ + json_quoted(
            reply.version@,
        ) + ",\"git\":"@ + json_quoted(reply.git@) + "}"@,
{
    let mut body = String::from_str("{\"status\":");
    let status = json_quote(reply.status);
    body.append(status.as_str());
    body.append(",\"version\":");
    let version = json_quote(reply.version);
    body.append(version.as_str());
    body.append(",\"git\":");
    let git = json_quote(reply.git);
    body.append(git.as_str());
    body.append("}");
    body
}

} // verus!
