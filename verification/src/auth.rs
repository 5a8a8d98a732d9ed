//! Login sessions of the relay and the registry that owns them.
//!
//! A session is created `Pending`, settles at most once into `Completed` or
//! `Failed`, and leaves the registry either when a poll reads its settled
//! state or when the sweep finds it older than [`SESSION_TTL_NANOS`].
//!
//! Time is a count of nanoseconds on the registry's own monotonic clock, so
//! that every rule about age is a rule about two integers.

use crate::token::authorization_url;
use crate::token::authorization_url_text;
use crate::token::code_exchange_request;
use crate::token::exchange_code_request;
use crate::token::read_token_reply;
use crate::token::token_reply_outcome;
use crate::token::TokenReply;
use crate::token::TokenRequest;
use dashmap::DashMap;
use std::time::Duration;
use std::time::Instant;
use vstd::prelude::*;
use vstd::string::*;

verus! {

/// A session older than this many nanoseconds (five minutes) is swept.
pub const SESSION_TTL_NANOS: u128 = 300_000_000_000;

/// Seconds between two sweeps of the registry.
pub const CLEANUP_INTERVAL_SECS: u64 = 60;

/// Ids drawn for a new session before the registry gives up: a drawn id
/// that is held already is thrown away and another one drawn.
pub const MAX_ID_DRAWS: u32 = 4;

/// Where a login stands.
#[derive(Debug, Clone)]
pub enum AuthState {
    Pending,
    Completed { access_token: String },
    Failed { error: String },
}

/// Mathematical value of an [`AuthState`].
pub enum AuthStateView {
    Pending,
    Completed { access_token: Seq<char> },
    Failed { error: Seq<char> },
}

impl AuthStateView {
    /// A terminal state is one that is not `Pending`.
    pub open spec fn is_terminal(self) -> bool {
        !(self is Pending)
    }
}

impl View for AuthState {
    type V = AuthStateView;

    open spec fn view(&self) -> AuthStateView {
        match self {
            AuthState::Pending => AuthStateView::Pending,
            AuthState::Completed { access_token } => AuthStateView::Completed {
                access_token: access_token@,
            },
            AuthState::Failed { error } => AuthStateView::Failed { error: error@ },
        }
    }
}

impl AuthState {
    /// Whether the login has settled, one way or the other.
    pub fn is_terminal(&self) -> (r: bool)
        ensures
            r == self@.is_terminal(),
    {
        match self {
            AuthState::Pending => false,
            _ => true,
        }
    }

    /// An independent copy of the state.
    pub fn duplicate(&self) -> (r: AuthState)
        ensures
            r@ == self@,
    {
        match self {
            AuthState::Pending => AuthState::Pending,
            AuthState::Completed { access_token } => AuthState::Completed {
                access_token: access_token.clone(),
            },
            AuthState::Failed { error } => AuthState::Failed { error: error.clone() },
        }
    }
}

/// A login session: its id, its state, and the instant it was created at, in
/// nanoseconds on the registry's clock.
#[derive(Debug, Clone)]
pub struct AuthSession {
    pub id: String,
    pub state: AuthState,
    pub created_at: u128,
}

/// Mathematical value of an [`AuthSession`].
pub struct SessionView {
    pub id: Seq<char>,
    pub state: AuthStateView,
    pub created_at: nat,
}

impl SessionView {
    /// Age beyond the time to live, as seen at `now`. A session is never
    /// expired at an instant before its creation.
    pub open spec fn is_expired(self, now: nat) -> bool {
        now - self.created_at > SESSION_TTL_NANOS
    }
}

impl View for AuthSession {
    type V = SessionView;

    open spec fn view(&self) -> SessionView {
        SessionView { id: self.id@, state: self.state@, created_at: self.created_at as nat }
    }
}

impl AuthSession {
    /// A new session: `Pending`, with the id and the creation instant given.
    pub fn new(id: String, created_at: u128) -> (s: AuthSession)
        ensures
            s@ == (SessionView {
                id: id@,
                state: AuthStateView::Pending,
                created_at: created_at as nat,
            }),
    {
        AuthSession { id, state: AuthState::Pending, created_at }
    }

    /// Whether the session has outlived [`SESSION_TTL_NANOS`] at `now`.
    pub fn is_expired(&self, now: u128) -> (r: bool)
        ensures
            r == self@.is_expired(now as nat),
    {
        now > self.created_at && now - self.created_at > SESSION_TTL_NANOS
    }

    /// The opposite of [`AuthSession::is_expired`]: the sweep keeps the session.
    pub fn is_live(&self, now: u128) -> (r: bool)
        ensures
            r == !self@.is_expired(now as nat),
    {
        !self.is_expired(now)
    }

    /// An independent copy of the session.
    pub fn duplicate(&self) -> (r: AuthSession)
        ensures
            r@ == self@,
    {
        AuthSession {
            id: self.id.clone(),
            state: self.state.duplicate(),
            created_at: self.created_at,
        }
    }
}

/// The registry as a mathematical map from session id to session.
pub type SessionMap = Map<Seq<char>, SessionView>;

/// A session as it is when it is made: `Pending`.
pub open spec fn new_session(id: Seq<char>, now: nat) -> SessionView {
    SessionView { id, state: AuthStateView::Pending, created_at: now }
}

/// The registry with the sessions expired at `now` taken out.
pub open spec fn live_sessions(m: SessionMap, now: nat) -> SessionMap {
    Map::new(|k: Seq<char>| m.dom().contains(k) && !m[k].is_expired(now), |k: Seq<char>| m[k])
}

/// Whether session `id` can be settled into `outcome`: it is present and
/// `Pending`, and `outcome` is terminal.
pub open spec fn can_settle(m: SessionMap, id: Seq<char>, outcome: AuthStateView) -> bool {
    m.dom().contains(id) && m[id].state is Pending && outcome.is_terminal()
}

/// The registry after an attempt to settle session `id` into `outcome`:
/// nothing changes unless [`can_settle`] holds.
pub open spec fn settled(m: SessionMap, id: Seq<char>, outcome: AuthStateView) -> SessionMap {
    if can_settle(m, id, outcome) {
        m.insert(id, SessionView { state: outcome, ..m[id] })
    } else {
        m
    }
}

/// Whether `c` may stand at position `i` of a session id: a hyphen at
/// positions 8, 13, 18 and 23, a lower-case hexadecimal digit elsewhere.
pub open spec fn fits_session_id(i: int, c: char) -> bool {
    if i == 8 || i == 13 || i == 18 || i == 23 {
        c == '-'
    } else {
        ('0' <= c <= '9') || ('a' <= c <= 'f')
    }
}

/// Shape of the ids the registry hands out: 36 characters, hyphens at
/// positions 8, 13, 18 and 23, lower-case hexadecimal digits elsewhere.
pub open spec fn is_session_id(id: Seq<char>) -> bool {
    &&& id.len() == 36
    &&& forall|i: int| 0 <= i < 36 ==> fits_session_id(i, #[trigger] id[i])
}

/// Whether no key of the registry has the shape of a session id. Into such
/// a registry, the empty one among them, any id that is drawn is new.
pub open spec fn holds_no_session_id(m: SessionMap) -> bool {
    forall|k: Seq<char>| m.dom().contains(k) ==> !is_session_id(k)
}

/// `dashmap::DashMap`, known to the verifier by name only: what a map
/// holds is told by [`session_entries`].
#[verifier::external_type_specification]
#[verifier::external_body]
#[verifier::reject_recursive_types(K)]
#[verifier::reject_recursive_types(V)]
#[verifier::reject_recursive_types(S)]
pub struct ExDashMap<K, V, S>(DashMap<K, V, S>);

/// `std::time::Instant`, known to the verifier by name only.
#[verifier::external_type_specification]
#[verifier::external_body]
pub struct ExInstant(Instant);

/// What a session map holds: for each id in it, the session stored under it.
pub uninterp spec fn session_entries(m: DashMap<String, AuthSession>) -> SessionMap;

/// `DashMap::new`: a map that holds nothing.
#[verifier::external_body]
fn sessions_new() -> (m: DashMap<String, AuthSession>)
    ensures
        session_entries(m) == SessionMap::empty(),
{
    DashMap::new()
}

/// `DashMap::insert`, with the session's own id as the key: afterwards that
/// key maps to the session and every other key is as before.
#[verifier::external_body]
fn sessions_insert(m: &mut DashMap<String, AuthSession>, session: AuthSession)
    ensures
        session_entries(*final(m)) == session_entries(*old(m)).insert(session.id@, session@),
{
    m.insert(session.id.clone(), session);
}

/// `DashMap::get`: a copy of the session stored under `id`, or `None` where
/// the map holds no such key.
#[verifier::external_body]
fn sessions_get(m: &DashMap<String, AuthSession>, id: &str) -> (found: Option<AuthSession>)
    ensures
        found is Some <==> session_entries(*m).dom().contains(id@),
        found matches Some(s) ==> s@ == session_entries(*m)[id@],
{
    match m.get(id) {
        Some(entry) => Some(entry.value().clone()),
        None => None,
    }
}

/// `DashMap::remove`: afterwards the key is absent and every other key is as
/// before.
#[verifier::external_body]
fn sessions_remove(m: &mut DashMap<String, AuthSession>, id: &str)
    ensures
        session_entries(*final(m)) == session_entries(*old(m)).remove(id@),
{
    m.remove(id);
}

/// `DashMap::retain`, keeping the sessions that are live at `now`: the others
/// leave the map, the kept ones are unchanged.
#[verifier::external_body]
fn sessions_retain_live(m: &mut DashMap<String, AuthSession>, now: u128)
    ensures
        session_entries(*final(m)) == live_sessions(session_entries(*old(m)), now as nat),
{
    m.retain(|_, session| session.is_live(now));
}

/// `Uuid::new_v4`, rendered by its `Display`: a random id in the hyphenated
/// lower-case form. Which id comes out is not determined.
#[verifier::external_body]
fn random_session_id() -> (id: String)
    ensures
        is_session_id(id@),
{
    uuid::Uuid::new_v4().to_string()
}

/// `Instant::now`: the current reading of the monotonic clock.
#[verifier::external_body]
fn clock_reading() -> Instant {
    Instant::now()
}

/// `Instant::elapsed`: the time that has passed since `anchor` was read.
#[verifier::external_body]
fn clock_elapsed(anchor: &Instant) -> Duration {
    anchor.elapsed()
}

/// `Duration::as_nanos`: the duration in whole nanoseconds.
#[verifier::external_body]
fn duration_nanos(d: &Duration) -> u128 {
    d.as_nanos()
}

/// The registry of login sessions, keyed by session id.
pub struct SessionStore {
    sessions: DashMap<String, AuthSession>,
    epoch: Instant,
}

impl SessionStore {
    /// The sessions held, by id.
    pub closed spec fn view(&self) -> SessionMap {
        let held = session_entries(self.sessions);
        Map::new(
            |k: Seq<char>| held.dom().contains(k),
            |k: Seq<char>| SessionView { id: k, ..held[k] },
        )
    }

    /// Every session is filed under its own id.
    pub proof fn lemma_filed_under_own_id(self)
        ensures
            forall|k: Seq<char>| #[trigger] self@.dom().contains(k) ==> self@[k].id == k,
    {
    }

    /// An empty registry whose clock starts now.
    pub fn new() -> (store: SessionStore)
        ensures
            store@ == SessionMap::empty(),
    {
        SessionStore { sessions: sessions_new(), epoch: clock_reading() }
    }

    /// Nanoseconds on the registry's clock: the time since it was made.
    pub fn now(&self) -> u128 {
        let elapsed = clock_elapsed(&self.epoch);
        duration_nanos(&elapsed)
    }

    /// Files a new `Pending` session under `id`, created at `now`, and returns
    /// a copy of it. Where a session is filed under that id already, nothing
    /// is filed and nothing changes: a session is never made `Pending` anew.
    pub fn create_session_with(&mut self, id: String, now: u128) -> (r: Option<AuthSession>)
        ensures
            r is Some <==> !old(self)@.dom().contains(id@),
            r matches Some(session) ==> session@ == new_session(id@, now as nat) && final(self)@
                == old(self)@.insert(id@, session@),
            r is None ==> final(self)@ == old(self)@,
    {
        if sessions_get(&self.sessions, id.as_str()).is_some() {
            return None;
        }
        let session = AuthSession::new(id, now);
        let copy = session.duplicate();
        sessions_insert(&mut self.sessions, session);
        assert(self@ =~= old(self)@.insert(id@, copy@));
        Some(copy)
    }

    /// Files a new `Pending` session under a random id that the registry
    /// does not hold yet, created at the present reading of the clock, and
    /// returns a copy of it. An id that is held is drawn again, up to
    /// [`MAX_ID_DRAWS`] draws in all; where every draw was held, nothing
    /// changes.
    ///
    /// A session is owed wherever no draw can be held: in a registry none
    /// of whose keys has the shape of a session id, the empty one among
    /// them, the first draw is new and the session is made.
    pub fn create_session(&mut self) -> (r: Option<AuthSession>)
        ensures
            holds_no_session_id(old(self)@) ==> r is Some,
            r matches Some(session) ==> is_session_id(session@.id) && !old(self)@.dom().contains(
                session@.id,
            ) && session@.state is Pending && final(self)@ == old(self)@.insert(
                session@.id,
                session@,
            ),
            r is None ==> final(self)@ == old(self)@,
    {
        let now = self.now();
        let mut draws: u32 = 0;
        while draws < MAX_ID_DRAWS
            invariant
                self@ == old(self)@,
                draws > 0 ==> !holds_no_session_id(old(self)@),
            decreases MAX_ID_DRAWS - draws,
        {
            let id = random_session_id();
            match self.create_session_with(id, now) {
                Some(session) => {
                    return Some(session);
                },
                None => {
                    assert(old(self)@.dom().contains(id@) && is_session_id(id@));
                },
            }
            draws += 1;
        }
        None
    }

    /// A copy of the session filed under `id`, if there is one. Age plays no
    /// part: a session is visible until it is removed.
    pub fn get_session(&self, id: &str) -> (found: Option<AuthSession>)
        ensures
            found is Some <==> self@.dom().contains(id@),
            found matches Some(s) ==> s@ == self@[id@] && s@.id == id@,
    {
        match sessions_get(&self.sessions, id) {
            Some(held) => Some(
                AuthSession { id: id.to_owned(), state: held.state, created_at: held.created_at },
            ),
            None => None,
        }
    }

    /// Removes the session filed under `id`; does nothing where there is none.
    pub fn remove_session(&mut self, id: &str)
        ensures
            final(self)@ == old(self)@.remove(id@),
    {
        sessions_remove(&mut self.sessions, id);
        assert(self@ =~= old(self)@.remove(id@));
    }

    /// Removes every session that is expired at `now`, whatever its state.
    pub fn cleanup_expired_at(&mut self, now: u128)
        ensures
            final(self)@ == live_sessions(old(self)@, now as nat),
    {
        sessions_retain_live(&mut self.sessions, now);
        assert(self@ =~= live_sessions(old(self)@, now as nat));
    }

    /// Removes every session that is expired at the present reading of the
    /// clock: what remains is what is live at some one instant.
    pub fn cleanup_expired(&mut self)
        ensures
            exists|now: nat| final(self)@ == live_sessions(old(self)@, now),
    {
        let now = self.now();
        self.cleanup_expired_at(now);
        assert(self@ == live_sessions(old(self)@, now as nat));
    }

    /// Settles the session filed under `id` into the terminal state
    /// `outcome`, if it is there and still `Pending`; otherwise nothing
    /// changes. Returns whether the session was settled by this call.
    pub fn settle(&mut self, id: &str, outcome: AuthState) -> (done: bool)
        ensures
            done == can_settle(old(self)@, id@, outcome@),
            final(self)@ == settled(old(self)@, id@, outcome@),
    {
        if !outcome.is_terminal() {
            return false;
        }
        match sessions_get(&self.sessions, id) {
            Some(current) => {
                if current.state.is_terminal() {
                    false
                } else {
                    let updated = AuthSession {
                        id: id.to_owned(),
                        state: outcome,
                        created_at: current.created_at,
                    };
                    sessions_insert(&mut self.sessions, updated);
                    assert(self@ =~= settled(old(self)@, id@, outcome@));
                    true
                }
            },
            None => false,
        }
    }

}

/// The token the relay keeps from an exchange.
#[derive(Debug, Clone)]
pub struct TokenResponse {
    pub access_token: String,
    /// The provider's id of the user, 0 where it gave none.
    pub user_id: u64,
}

/// What the relay is configured with: its credentials at the provider and
/// the address under which the outside world reaches it.
#[derive(Debug, Clone)]
pub struct OAuthConfig {
    pub client_id: String,
    pub client_secret: String,
    pub public_url: String,
}

impl OAuthConfig {
    /// The address the provider redirects to: the public address of the
    /// relay followed by `/auth/callback`.
    pub open spec fn redirect_uri_text(&self) -> Seq<char> {
        self.public_url@ + "/auth/callback"@
    }

    /// The address the provider redirects to.
    pub fn redirect_uri(&self) -> (uri: String)
        ensures
            uri@ == self.redirect_uri_text(),
    {
        let mut uri = self.public_url.clone();
        uri.append("/auth/callback");
        uri
    }

    /// The address that sends the end user to the provider, bound to the
    /// session by `state`.
    pub fn authorization_url(&self, state: &str) -> (url: String)
        ensures
            url@ == authorization_url_text(
                self.client_id@,
                self.redirect_uri_text(),
                Some(state@),
            ),
    {
        let redirect = self.redirect_uri();
        authorization_url(self.client_id.as_str(), redirect.as_str(), Some(state))
    }

    /// The request that trades the authorization code `code` for a token.
    pub fn exchange_request(&self, code: &str) -> (request: TokenRequest)
        ensures
            request@ == code_exchange_request(
                self.client_id@,
                self.client_secret@,
                self.redirect_uri_text(),
                code@,
            ),
    {
        let redirect = self.redirect_uri();
        exchange_code_request(
            self.client_id.as_str(),
            self.client_secret.as_str(),
            redirect.as_str(),
            code,
        )
    }

    /// The outcome of the exchange, from the reply to
    /// [`OAuthConfig::exchange_request`]: the token, or the error as text.
    pub fn exchange_code(&self, reply: TokenReply) -> (r: Result<TokenResponse, String>)
        ensures
            match token_reply_outcome(reply@) {
                Ok(token) => r matches Ok(kept) && kept.access_token@ == token.access_token
                    && kept.user_id == (match token.user_id {
                    Some(id) => id,
                    None => 0,
                }),
                Err(e) => r matches Err(text) && text@ == e.message(),
            },
    {
        match read_token_reply(reply) {
            Ok(token) => {
                let user_id = match token.user_id {
                    Some(id) => id,
                    None => 0,
                };
                Ok(TokenResponse { access_token: token.access_token, user_id })
            },
            Err(e) => Err(e.message()),
        }
    }
}

} // verus!
