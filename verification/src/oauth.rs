//! The client's side of a login: the flow that captures the provider's
//! redirect on a loopback listener, and the flow that polls a relay.
//!
//! Listening, sleeping and talking to the network are the caller's work.
//! What it sees on the way comes here as plain values, and this module
//! decides what it means and what to do next.

use crate::text::decimal;
use crate::text::decimal_text;
use crate::text::text_of;
use crate::token::authorization_url;
use crate::token::authorization_url_text;
use crate::token::code_exchange_request;
use crate::token::exchange_code_request;
use crate::token::is_success_status;
use crate::token::read_token_reply;
use crate::token::status_is_success;
use crate::token::token_reply_outcome;
use crate::token::TokenErrorView;
use crate::token::TokenExchangeError;
use crate::token::TokenReply;
use crate::token::TokenReplyView;
use crate::token::TokenRequest;
use crate::token::TokenRequestView;
use vstd::prelude::*;
use vstd::string::*;

verus! {

/// The loopback port the local listener binds.
pub const OAUTH_PORT: u16 = 1337;

/// Seconds between two polls of the relay.
pub const POLL_INTERVAL_SECS: u64 = 2;

/// Polls after which the client gives up: five minutes' worth.
pub const MAX_POLLS: u32 = 150;

/// Status with which the relay says that it holds no such session.
pub const STATUS_NOT_FOUND: u16 = 404;

/// The state token of the local flow. One login runs at a time and the
/// redirect goes to the loopback listener, so the token is a fixed one.
pub const LOCAL_STATE: &'static str = "ndl-local";

/// The names the listener's certificate is valid for.
pub const CERT_NAME_HOST: &'static str = "localhost";

/// The loopback address the listener's certificate is valid for.
pub const CERT_NAME_ADDR: &'static str = "127.0.0.1";

/// The page the local listener answers every callback with.
pub const CALLBACK_HTML: &'static str =
    "<!DOCTYPE html><html><head><title>ndl - Authorization Complete</title><style>body { font-family: -apple-system, BlinkMacSystemFont, 'Segoe UI', Roboto, sans-serif; display: flex; justify-content: center; align-items: center; height: 100vh; margin: 0; background: #0a0a0a; color: #fff; } .container { text-align: center; padding: 2rem; } h1 { color: #00d4aa; } p { color: #888; }</style></head><body><div class=\"container\"><h1>Authorization Complete</h1><p>You can close this window and return to ndl.</p></div></body></html>";

/// The query of a callback on the local listener.
#[derive(Debug, Clone)]
pub struct CallbackParams {
    pub code: Option<String>,
    pub error: Option<String>,
    pub error_description: Option<String>,
}

/// The token a login ends with.
#[derive(Debug, Clone)]
pub struct TokenResponse {
    pub access_token: String,
    /// The provider's id of the user, 0 where it is not known.
    pub user_id: u64,
}

/// Why a login failed.
#[derive(Debug, Clone)]
pub enum OAuthError {
    CertGeneration(String),
    TlsConfig(String),
    AuthorizationDenied(String),
    ChannelClosed,
    ServerShutdown,
    TokenExchange(String),
    BrowserOpen(String),
    HostedAuth(String),
    SessionTimeout,
}

/// Mathematical value of an [`OAuthError`].
pub enum OAuthErrorView {
    CertGeneration(Seq<char>),
    TlsConfig(Seq<char>),
    AuthorizationDenied(Seq<char>),
    ChannelClosed,
    ServerShutdown,
    TokenExchange(Seq<char>),
    BrowserOpen(Seq<char>),
    HostedAuth(Seq<char>),
    SessionTimeout,
}

impl OAuthErrorView {
    /// The error as a line of text.
    pub open spec fn message(self) -> Seq<char> {
        match self {
            OAuthErrorView::CertGeneration(why) => "Failed to generate certificate: "@ + why,
            OAuthErrorView::TlsConfig(why) => "TLS configuration error: "@ + why,
            OAuthErrorView::AuthorizationDenied(why) => "Authorization denied: "@ + why,
            OAuthErrorView::ChannelClosed => "Internal channel closed unexpectedly"@,
            OAuthErrorView::ServerShutdown => "OAuth server shut down unexpectedly"@,
            OAuthErrorView::TokenExchange(why) => "Token exchange failed: "@ + why,
            OAuthErrorView::BrowserOpen(why) => "Failed to open browser: "@ + why,
            OAuthErrorView::HostedAuth(why) => "Hosted auth error: "@ + why,
            OAuthErrorView::SessionTimeout => "Auth session timeout"@,
        }
    }
}

impl View for OAuthError {
    type V = OAuthErrorView;

    open spec fn view(&self) -> OAuthErrorView {
        match self {
            OAuthError::CertGeneration(why) => OAuthErrorView::CertGeneration(why@),
            OAuthError::TlsConfig(why) => OAuthErrorView::TlsConfig(why@),
            OAuthError::AuthorizationDenied(why) => OAuthErrorView::AuthorizationDenied(why@),
            OAuthError::ChannelClosed => OAuthErrorView::ChannelClosed,
            OAuthError::ServerShutdown => OAuthErrorView::ServerShutdown,
            OAuthError::TokenExchange(why) => OAuthErrorView::TokenExchange(why@),
            OAuthError::BrowserOpen(why) => OAuthErrorView::BrowserOpen(why@),
            OAuthError::HostedAuth(why) => OAuthErrorView::HostedAuth(why@),
            OAuthError::SessionTimeout => OAuthErrorView::SessionTimeout,
        }
    }
}

fn prefixed(prefix: &str, rest: &str) -> (text: String)
    ensures
        text@ == prefix@ + rest@,
{
    let mut text = String::from_str(prefix);
    text.append(rest);
    text
}

impl OAuthError {
    /// The error as a line of text.
    pub fn message(&self) -> (text: String)
        ensures
            text@ == self@.message(),
    {
        match self {
            OAuthError::CertGeneration(why) => prefixed(
                "Failed to generate certificate: ",
                why.as_str(),
            ),
            OAuthError::TlsConfig(why) => prefixed("TLS configuration error: ", why.as_str()),
            OAuthError::AuthorizationDenied(why) => prefixed(
                "Authorization denied: ",
                why.as_str(),
            ),
            OAuthError::ChannelClosed => String::from_str("Internal channel closed unexpectedly"),
            OAuthError::ServerShutdown => String::from_str("OAuth server shut down unexpectedly"),
            OAuthError::TokenExchange(why) => prefixed("Token exchange failed: ", why.as_str()),
            OAuthError::BrowserOpen(why) => prefixed("Failed to open browser: ", why.as_str()),
            OAuthError::HostedAuth(why) => prefixed("Hosted auth error: ", why.as_str()),
            OAuthError::SessionTimeout => String::from_str("Auth session timeout"),
        }
    }
}

/// The view of the result of a login step that yields a text.
pub open spec fn text_result_view(r: Result<String, OAuthError>) -> Result<
    Seq<char>,
    OAuthErrorView,
> {
    match r {
        Ok(text) => Ok(text@),
        Err(e) => Err(e@),
    }
}

/// The view of the result of a login.
pub open spec fn login_result_view(r: Result<TokenResponse, OAuthError>) -> Result<
    (Seq<char>, u64),
    OAuthErrorView,
> {
    match r {
        Ok(token) => Ok((token.access_token@, token.user_id)),
        Err(e) => Err(e@),
    }
}

/// What the client of the local flow is configured with.
#[derive(Debug, Clone)]
pub struct OAuthConfig {
    pub client_id: String,
    pub client_secret: String,
    pub redirect_uri: String,
}

/// The address the provider redirects to in the local flow.
pub open spec fn local_redirect_uri() -> Seq<char> {
    "https://localhost:"@ + decimal(OAUTH_PORT as nat) + "/callback"@
}

/// How an error of the token endpoint reads as the reason of a failed
/// exchange: a transport or decoding failure by its reason alone, a
/// refusal by its status and body.
pub open spec fn exchange_failure(e: TokenErrorView) -> Seq<char> {
    match e {
        TokenErrorView::Request(why) => why,
        TokenErrorView::Http { status, body } => e.message(),
        TokenErrorView::Parse(why) => why,
    }
}

/// What the reply of the token endpoint means for the login.
pub open spec fn exchange_result(reply: TokenReplyView) -> Result<(Seq<char>, u64), OAuthErrorView> {
    match token_reply_outcome(reply) {
        Ok(token) => Ok(
            (
                token.access_token,
                match token.user_id {
                    Some(id) => id,
                    None => 0,
                },
            ),
        ),
        Err(e) => Err(OAuthErrorView::TokenExchange(exchange_failure(e))),
    }
}

impl OAuthConfig {
    /// The configuration of the local flow: the redirect address is the
    /// listener's own, `https://localhost:1337/callback`.
    pub fn new(client_id: String, client_secret: String) -> (config: OAuthConfig)
        ensures
            config.client_id == client_id,
            config.client_secret == client_secret,
            config.redirect_uri@ == local_redirect_uri(),
    {
        let mut redirect_uri = String::from_str("https://localhost:");
        let port = decimal_text(OAUTH_PORT as u64);
        redirect_uri.append(port.as_str());
        redirect_uri.append("/callback");
        OAuthConfig { client_id, client_secret, redirect_uri }
    }

    /// The address that sends the end user to the provider. Its state token
    /// is the fixed one of the local flow, [`LOCAL_STATE`].
    pub fn authorization_url(&self) -> (url: String)
        ensures
            url@ == authorization_url_text(
                self.client_id@,
                self.redirect_uri@,
                Some(LOCAL_STATE@),
            ),
    {
        authorization_url(
            self.client_id.as_str(),
            self.redirect_uri.as_str(),
            Some(LOCAL_STATE),
        )
    }

    /// The request that trades the authorization code `code` for a token.
    pub fn exchange_request(&self, code: &str) -> (request: TokenRequest)
        ensures
            request@ == code_exchange_request(
                self.client_id@,
                self.client_secret@,
                self.redirect_uri@,
                code@,
            ),
    {
        exchange_code_request(
            self.client_id.as_str(),
            self.client_secret.as_str(),
            self.redirect_uri.as_str(),
            code,
        )
    }

    /// The outcome of the exchange, from the reply to
    /// [`OAuthConfig::exchange_request`].
    pub fn exchange_code(&self, reply: TokenReply) -> (r: Result<TokenResponse, OAuthError>)
        ensures
            login_result_view(r) == exchange_result(reply@),
    {
        match read_token_reply(reply) {
            Ok(token) => {
                let user_id = match token.user_id {
                    Some(id) => id,
                    None => 0,
                };
                Ok(TokenResponse { access_token: token.access_token, user_id })
            },
            Err(e) => {
                let why = match e {
                    TokenExchangeError::Request(why) => why,
                    TokenExchangeError::Http { status, body } => (TokenExchangeError::Http {
                        status,
                        body,
                    }).message(),
                    TokenExchangeError::Parse(why) => why,
                };
                Err(OAuthError::TokenExchange(why))
            },
        }
    }
}

/// What a callback on the local listener delivers: the code where there is
/// one; else a denial with the error's description, or the error itself,
/// or `Unknown error` where the callback names neither.
pub open spec fn callback_delivery(
    code: Option<Seq<char>>,
    error: Option<Seq<char>>,
    error_description: Option<Seq<char>>,
) -> Result<Seq<char>, OAuthErrorView> {
    match code {
        Some(c) => Ok(c),
        None => Err(
            OAuthErrorView::AuthorizationDenied(
                match error_description {
                    Some(text) => text,
                    None => match error {
                        Some(text) => text,
                        None => "Unknown error"@,
                    },
                },
            ),
        ),
    }
}

/// What a callback on the local listener delivers to the waiting login.
pub fn callback_outcome(params: CallbackParams) -> (r: Result<String, OAuthError>)
    ensures
        text_result_view(r) == callback_delivery(
            text_of(params.code),
            text_of(params.error),
            text_of(params.error_description),
        ),
{
    match params.code {
        Some(code) => Ok(code),
        None => {
            let why = match params.error_description {
                Some(text) => text,
                None => match params.error {
                    Some(text) => text,
                    None => String::from_str("Unknown error"),
                },
            };
            Err(OAuthError::AuthorizationDenied(why))
        },
    }
}

/// The listener's way to the waiting login: good for one delivery.
///
/// The first callback takes it; every later one finds it spent.
#[derive(Debug)]
pub struct CallbackSlot {
    armed: bool,
}

impl CallbackSlot {
    /// Whether no callback has been delivered yet.
    pub closed spec fn is_armed(&self) -> bool {
        self.armed
    }

    /// A slot that has delivered nothing yet.
    pub fn new() -> (slot: CallbackSlot)
        ensures
            slot.is_armed(),
    {
        CallbackSlot { armed: true }
    }

    /// Takes a callback. The first one on this slot is handed back for
    /// delivery; any later one is answered with the same page and delivers
    /// nothing. The page is [`CALLBACK_HTML`] either way.
    pub fn accept(&mut self, params: CallbackParams) -> (r: (
        Option<Result<String, OAuthError>>,
        &'static str,
    ))
        ensures
            !final(self).is_armed(),
            r.0 is Some <==> old(self).is_armed(),
            r.0 matches Some(delivery) ==> text_result_view(delivery) == callback_delivery(
                text_of(params.code),
                text_of(params.error),
                text_of(params.error_description),
            ),
            r.1@ == CALLBACK_HTML@,
    {
        if self.armed {
            self.armed = false;
            (Some(callback_outcome(params)), CALLBACK_HTML)
        } else {
            (None, CALLBACK_HTML)
        }
    }
}

/// How the listener fared, from its making to the end of the wait.
#[derive(Debug)]
pub enum WaitEvent {
    /// No certificate could be made; nothing was bound.
    CertFailed { reason: String },
    /// TLS could not be set up with the certificate; nothing was bound.
    TlsFailed { reason: String },
    /// The listener delivered the outcome of a callback.
    Delivered(Result<String, OAuthError>),
    /// The way to the login closed before anything was delivered.
    ChannelClosed,
    /// The listener stopped before anything was delivered.
    ServerStopped,
}

/// What the listener's fate means: a failed certificate or TLS setup is
/// the error of that name, a delivery is itself, and a wait that broke
/// off is the error for the way it broke off.
pub open spec fn wait_result(event: WaitEvent) -> Result<Seq<char>, OAuthErrorView> {
    match event {
        WaitEvent::CertFailed { reason } => Err(OAuthErrorView::CertGeneration(reason@)),
        WaitEvent::TlsFailed { reason } => Err(OAuthErrorView::TlsConfig(reason@)),
        WaitEvent::Delivered(r) => text_result_view(r),
        WaitEvent::ChannelClosed => Err(OAuthErrorView::ChannelClosed),
        WaitEvent::ServerStopped => Err(OAuthErrorView::ServerShutdown),
    }
}

/// The authorization code the listener ended with, or why there is none.
pub fn wait_for_callback(event: WaitEvent) -> (r: Result<String, OAuthError>)
    ensures
        text_result_view(r) == wait_result(event),
{
    match event {
        WaitEvent::CertFailed { reason } => Err(OAuthError::CertGeneration(reason)),
        WaitEvent::TlsFailed { reason } => Err(OAuthError::TlsConfig(reason)),
        WaitEvent::Delivered(r) => r,
        WaitEvent::ChannelClosed => Err(OAuthError::ChannelClosed),
        WaitEvent::ServerStopped => Err(OAuthError::ServerShutdown),
    }
}

/// The names the listener's certificate is made out to: `localhost` and
/// the loopback address.
pub fn localhost_cert_names() -> (names: Vec<String>)
    ensures
        names@.len() == 2,
        names@[0]@ == CERT_NAME_HOST@,
        names@[1]@ == CERT_NAME_ADDR@,
{
    let mut names: Vec<String> = Vec::new();
    names.push(String::from_str(CERT_NAME_HOST));
    names.push(String::from_str(CERT_NAME_ADDR));
    names
}

/// What happened while the local login ran.
#[derive(Debug)]
pub enum LoginEvent {
    /// The certificate is made, TLS is set up and the port is bound.
    ListenerReady,
    /// No certificate could be made.
    CertFailed { reason: String },
    /// TLS could not be set up with the certificate.
    TlsFailed { reason: String },
    /// The port could not be bound, or the listener stopped at once.
    ListenerStopped,
    /// The browser was opened on the authorization address.
    BrowserOpened,
    /// The browser could not be opened.
    BrowserFailed { reason: String },
    /// The wait for the callback ended.
    CallbackWaited { outcome: Result<String, OAuthError> },
    /// The token endpoint was asked.
    Exchanged { reply: TokenReply },
}

/// What the local login does next.
#[derive(Debug)]
pub enum LoginAction {
    /// Open this address in the browser.
    OpenBrowser { url: String },
    /// Wait for the callback on the listener.
    WaitForCallback,
    /// Send this request to the token endpoint.
    Exchange { request: TokenRequest },
    /// The login is over.
    Done { result: Result<TokenResponse, OAuthError> },
}

/// Mathematical value of a [`LoginAction`].
pub enum LoginActionView {
    OpenBrowser { url: Seq<char> },
    WaitForCallback,
    Exchange { request: TokenRequestView },
    Done { result: Result<(Seq<char>, u64), OAuthErrorView> },
}

impl View for LoginAction {
    type V = LoginActionView;

    open spec fn view(&self) -> LoginActionView {
        match self {
            LoginAction::OpenBrowser { url } => LoginActionView::OpenBrowser { url: url@ },
            LoginAction::WaitForCallback => LoginActionView::WaitForCallback,
            LoginAction::Exchange { request } => LoginActionView::Exchange { request: request@ },
            LoginAction::Done { result } => LoginActionView::Done {
                result: login_result_view(*result),
            },
        }
    }
}

/// How far a local login has come.
#[derive(Debug, Clone, Copy, PartialEq, Eq, Structural)]
pub enum LoginStage {
    /// The listener is being made: certificate, TLS, port.
    Listening,
    /// The listener stands; the browser is being opened.
    Opening,
    /// The browser is open; the callback is waited for.
    Waiting,
    /// The code has come; the token endpoint is being asked.
    Exchanging,
    Finished,
}

/// A login of the local flow: make the listener, open the browser, wait
/// for the callback, exchange the code.
#[derive(Debug)]
pub struct LocalLogin {
    pub config: OAuthConfig,
    pub stage: LoginStage,
}

/// The stage a local login is in after `event` arrived in `stage`. An
/// event that does not belong to the stage ends the login.
pub open spec fn next_stage(stage: LoginStage, event: LoginEvent) -> LoginStage {
    match (stage, event) {
        (LoginStage::Listening, LoginEvent::ListenerReady) => LoginStage::Opening,
        (LoginStage::Opening, LoginEvent::BrowserOpened) => LoginStage::Waiting,
        (LoginStage::Waiting, LoginEvent::CallbackWaited { outcome: Ok(_) }) => {
            LoginStage::Exchanging
        },
        _ => LoginStage::Finished,
    }
}

/// A login that ends in `error`.
pub open spec fn ends_in(error: OAuthErrorView) -> LoginActionView {
    LoginActionView::Done { result: Err(error) }
}

/// What a local login does when `event` arrives in `stage`.
///
/// While the listener is made, a failed certificate or TLS setup ends the
/// login with the error of that name and a listener that does not stand
/// ends it as shut down, all before the browser is touched; a listener
/// that stands has the browser opened on the authorization address. With
/// the browser open the callback is waited for; a browser that does not
/// open ends the login. A code from the callback is exchanged; a failed
/// wait ends the login with its error. The reply of the token endpoint
/// ends the login with the token or the error of the exchange. An event
/// out of turn ends the login as a closed channel.
pub open spec fn next_action(
    config: OAuthConfig,
    stage: LoginStage,
    event: LoginEvent,
) -> LoginActionView {
    match (stage, event) {
        (LoginStage::Listening, LoginEvent::ListenerReady) => LoginActionView::OpenBrowser {
            url: authorization_url_text(config.client_id@, config.redirect_uri@, Some(LOCAL_STATE@)),
        },
        (LoginStage::Listening, LoginEvent::CertFailed { reason }) => ends_in(
            OAuthErrorView::CertGeneration(reason@),
        ),
        (LoginStage::Listening, LoginEvent::TlsFailed { reason }) => ends_in(
            OAuthErrorView::TlsConfig(reason@),
        ),
        (LoginStage::Listening, LoginEvent::ListenerStopped) => ends_in(
            OAuthErrorView::ServerShutdown,
        ),
        (LoginStage::Opening, LoginEvent::BrowserOpened) => LoginActionView::WaitForCallback,
        (LoginStage::Opening, LoginEvent::BrowserFailed { reason }) => ends_in(
            OAuthErrorView::BrowserOpen(reason@),
        ),
        (
            LoginStage::Waiting,
            LoginEvent::CallbackWaited { outcome: Ok(code) },
        ) => LoginActionView::Exchange {
            request: code_exchange_request(
                config.client_id@,
                config.client_secret@,
                config.redirect_uri@,
                code@,
            ),
        },
        (LoginStage::Waiting, LoginEvent::CallbackWaited { outcome: Err(e) }) => ends_in(e@),
        (LoginStage::Exchanging, LoginEvent::Exchanged { reply }) => LoginActionView::Done {
            result: exchange_result(reply@),
        },
        _ => ends_in(OAuthErrorView::ChannelClosed),
    }
}

/// Begins a login of the local flow. The listener comes first: the login
/// waits in `Listening` to hear how the making of it went. The address
/// that will be opened in the browser comes with the login, to be shown.
pub fn login(client_id: &str, client_secret: &str) -> (r: (LocalLogin, String))
    ensures
        r.0.stage == LoginStage::Listening,
        r.0.config.client_id@ == client_id@,
        r.0.config.client_secret@ == client_secret@,
        r.0.config.redirect_uri@ == local_redirect_uri(),
        r.1@ == authorization_url_text(client_id@, local_redirect_uri(), Some(LOCAL_STATE@)),
{
    let config = OAuthConfig::new(String::from_str(client_id), String::from_str(client_secret));
    let url = config.authorization_url();
    (LocalLogin { config, stage: LoginStage::Listening }, url)
}

impl LocalLogin {
    /// Takes the login one step on: see [`next_action`] and [`next_stage`].
    pub fn advance(&mut self, event: LoginEvent) -> (action: LoginAction)
        ensures
            final(self).config == old(self).config,
            final(self).stage == next_stage(old(self).stage, event),
            action@ == next_action(old(self).config, old(self).stage, event),
    {
        let stage = self.stage;
        match (stage, event) {
            (LoginStage::Listening, LoginEvent::ListenerReady) => {
                self.stage = LoginStage::Opening;
                LoginAction::OpenBrowser { url: self.config.authorization_url() }
            },
            (LoginStage::Listening, LoginEvent::CertFailed { reason }) => {
                self.stage = LoginStage::Finished;
                LoginAction::Done { result: Err(OAuthError::CertGeneration(reason)) }
            },
            (LoginStage::Listening, LoginEvent::TlsFailed { reason }) => {
                self.stage = LoginStage::Finished;
                LoginAction::Done { result: Err(OAuthError::TlsConfig(reason)) }
            },
            (LoginStage::Listening, LoginEvent::ListenerStopped) => {
                self.stage = LoginStage::Finished;
                LoginAction::Done { result: Err(OAuthError::ServerShutdown) }
            },
            (LoginStage::Opening, LoginEvent::BrowserOpened) => {
                self.stage = LoginStage::Waiting;
                LoginAction::WaitForCallback
            },
            (LoginStage::Opening, LoginEvent::BrowserFailed { reason }) => {
                self.stage = LoginStage::Finished;
                LoginAction::Done { result: Err(OAuthError::BrowserOpen(reason)) }
            },
            (LoginStage::Waiting, LoginEvent::CallbackWaited { outcome: Ok(code) }) => {
                self.stage = LoginStage::Exchanging;
                LoginAction::Exchange { request: self.config.exchange_request(code.as_str()) }
            },
            (LoginStage::Waiting, LoginEvent::CallbackWaited { outcome: Err(e) }) => {
                self.stage = LoginStage::Finished;
                LoginAction::Done { result: Err(e) }
            },
            (LoginStage::Exchanging, LoginEvent::Exchanged { reply }) => {
                self.stage = LoginStage::Finished;
                LoginAction::Done { result: self.config.exchange_code(reply) }
            },
            _ => {
                self.stage = LoginStage::Finished;
                LoginAction::Done { result: Err(OAuthError::ChannelClosed) }
            },
        }
    }
}

/// A failure of the certificate or of TLS ends the login with the error of
/// that name before the browser is opened and before anything is sent: in
/// a login that has just begun it is the first and last step.
pub proof fn lemma_listener_failure_comes_first(config: OAuthConfig, reason: String)
    ensures
        next_action(config, LoginStage::Listening, LoginEvent::CertFailed { reason }) == ends_in(
            OAuthErrorView::CertGeneration(reason@),
        ),
        next_action(config, LoginStage::Listening, LoginEvent::TlsFailed { reason }) == ends_in(
            OAuthErrorView::TlsConfig(reason@),
        ),
        next_stage(LoginStage::Listening, LoginEvent::CertFailed { reason })
            == LoginStage::Finished,
        next_stage(LoginStage::Listening, LoginEvent::TlsFailed { reason })
            == LoginStage::Finished,
{
}

/// The browser is opened only once the listener stands, and a token comes
/// only out of the exchange: whatever the stage and the event, an action
/// that opens the browser follows `ListenerReady` in `Listening`, and a
/// login that ends well follows `Exchanged` in `Exchanging`.
pub proof fn lemma_local_login_order(config: OAuthConfig, stage: LoginStage, event: LoginEvent)
    ensures
        next_action(config, stage, event) is OpenBrowser ==> stage == LoginStage::Listening
            && event is ListenerReady,
        next_action(config, stage, event) is WaitForCallback ==> stage == LoginStage::Opening
            && event is BrowserOpened,
        next_action(config, stage, event) is Exchange ==> stage == LoginStage::Waiting,
        (next_action(config, stage, event) matches LoginActionView::Done { result: Ok(_) })
            ==> stage == LoginStage::Exchanging && event is Exchanged,
{
}

/// The relay's reply to `start`.
#[derive(Debug, Clone)]
pub struct StartAuthResponse {
    pub session_id: String,
    pub auth_url: String,
}

/// The relay's reply to a poll.
#[derive(Debug, Clone)]
pub enum PollStatus {
    Pending,
    Completed { access_token: String },
    Failed { error: String },
}

/// What came back when the relay was asked to open a login.
#[derive(Debug)]
pub enum StartReply {
    /// No answer: the request failed on the way.
    SendFailed { reason: String },
    /// An answer: its status, its body (empty where it could not be read),
    /// and what reading the body as a start reply gave.
    Answered { status: u16, body: String, decoded: Result<StartAuthResponse, String> },
}

/// What came back from a poll of the relay.
#[derive(Debug)]
pub enum PollReply {
    /// No answer: the request failed on the way. `reason` is for the log.
    SendFailed { reason: String },
    /// An answer: its status and what reading its body as a poll reply gave.
    Answered { status: u16, decoded: Result<PollStatus, String> },
}

/// Where the relay at `auth_server` opens logins.
pub fn start_url(auth_server: &str) -> (url: String)
    ensures
        url@ == auth_server@ + "/auth/start"@,
{
    prefixed(auth_server, "/auth/start")
}

/// Where the relay at `auth_server` is polled for session `session_id`.
pub fn poll_url(auth_server: &str, session_id: &str) -> (url: String)
    ensures
        url@ == auth_server@ + "/auth/poll/"@ + session_id@,
{
    let mut url = prefixed(auth_server, "/auth/poll/");
    url.append(session_id);
    url
}

/// What the reply to `start` amounts to: the session and the address to
/// open, or a `HostedAuth` error that says what went wrong.
pub open spec fn start_result(reply: StartReply) -> Result<(Seq<char>, Seq<char>), OAuthErrorView> {
    match reply {
        StartReply::SendFailed { reason } => Err(
            OAuthErrorView::HostedAuth("Failed to start auth: "@ + reason@),
        ),
        StartReply::Answered { status, body, decoded } => {
            if !is_success_status(status) {
                Err(OAuthErrorView::HostedAuth("Server error: "@ + body@))
            } else {
                match decoded {
                    Ok(started) => Ok((started.session_id@, started.auth_url@)),
                    Err(why) => Err(OAuthErrorView::HostedAuth("Invalid response: "@ + why@)),
                }
            }
        },
    }
}

/// What a login of the relay flow does after a poll.
#[derive(Debug)]
pub enum PollVerdict {
    /// Sleep [`POLL_INTERVAL_SECS`] and poll again.
    Again,
    /// The login is over.
    Done { result: Result<TokenResponse, OAuthError> },
}

/// Mathematical value of a [`PollVerdict`].
pub enum PollVerdictView {
    Again,
    Done { result: Result<(Seq<char>, u64), OAuthErrorView> },
}

impl View for PollVerdict {
    type V = PollVerdictView;

    open spec fn view(&self) -> PollVerdictView {
        match self {
            PollVerdict::Again => PollVerdictView::Again,
            PollVerdict::Done { result } => PollVerdictView::Done {
                result: login_result_view(*result),
            },
        }
    }
}

/// What one poll says, the budget of polls aside.
///
/// A request that got no answer is taken as passing, and the poll is
/// repeated. Status 404 means that the relay has dropped the session: the
/// login has timed out. Any other status that is no success is taken as
/// passing too. An answer that cannot be read ends the login.
/// `Pending` repeats the poll, `Completed` ends the login with the token,
/// `Failed` ends it as a denial with the relay's reason.
pub open spec fn poll_verdict(reply: PollReply) -> PollVerdictView {
    match reply {
        PollReply::SendFailed { reason } => PollVerdictView::Again,
        PollReply::Answered { status, decoded } => {
            if status == STATUS_NOT_FOUND {
                PollVerdictView::Done { result: Err(OAuthErrorView::SessionTimeout) }
            } else if !is_success_status(status) {
                PollVerdictView::Again
            } else {
                match decoded {
                    Err(why) => PollVerdictView::Done {
                        result: Err(
                            OAuthErrorView::HostedAuth("Invalid poll response: "@ + why@),
                        ),
                    },
                    Ok(PollStatus::Pending) => PollVerdictView::Again,
                    Ok(PollStatus::Completed { access_token }) => PollVerdictView::Done {
                        result: Ok((access_token@, 0)),
                    },
                    Ok(PollStatus::Failed { error }) => PollVerdictView::Done {
                        result: Err(OAuthErrorView::AuthorizationDenied(error@)),
                    },
                }
            }
        },
    }
}

/// What one poll says when `polls_before` polls were made before it: as
/// [`poll_verdict`], but the poll that exhausts the budget of
/// [`MAX_POLLS`] without ending the login ends it as timed out.
pub open spec fn budgeted_verdict(polls_before: nat, reply: PollReply) -> PollVerdictView {
    if polls_before >= MAX_POLLS {
        PollVerdictView::Done { result: Err(OAuthErrorView::SessionTimeout) }
    } else if poll_verdict(reply) is Again && polls_before + 1 >= MAX_POLLS {
        PollVerdictView::Done { result: Err(OAuthErrorView::SessionTimeout) }
    } else {
        poll_verdict(reply)
    }
}

/// Judges one poll, the budget of polls aside.
pub fn judge_poll(reply: PollReply) -> (verdict: PollVerdict)
    ensures
        verdict@ == poll_verdict(reply),
{
    match reply {
        PollReply::SendFailed { reason } => PollVerdict::Again,
        PollReply::Answered { status, decoded } => {
            if status == STATUS_NOT_FOUND {
                PollVerdict::Done { result: Err(OAuthError::SessionTimeout) }
            } else if !status_is_success(status) {
                PollVerdict::Again
            } else {
                match decoded {
                    Err(why) => PollVerdict::Done {
                        result: Err(
                            OAuthError::HostedAuth(
                                prefixed("Invalid poll response: ", why.as_str()),
                            ),
                        ),
                    },
                    Ok(PollStatus::Pending) => PollVerdict::Again,
                    Ok(PollStatus::Completed { access_token }) => PollVerdict::Done {
                        result: Ok(TokenResponse { access_token, user_id: 0 }),
                    },
                    Ok(PollStatus::Failed { error }) => PollVerdict::Done {
                        result: Err(OAuthError::AuthorizationDenied(error)),
                    },
                }
            }
        },
    }
}

/// A login of the relay flow that has been opened: the address to show
/// the end user, the address to poll, and the polls made so far.
#[derive(Debug)]
pub struct HostedLogin {
    pub session_id: String,
    pub auth_url: String,
    pub poll_url: String,
    pub polls_made: u32,
}

/// Opens a login of the relay flow from the relay's reply to `start`.
///
/// The address in it is to be shown to the end user and opened in a
/// browser; a browser that does not open is no failure of the login.
pub fn hosted_login(auth_server: &str, reply: StartReply) -> (r: Result<HostedLogin, OAuthError>)
    ensures
        match start_result(reply) {
            Ok((session_id, auth_url)) => r matches Ok(opened) && opened.session_id@
                == session_id && opened.auth_url@ == auth_url && opened.poll_url@ == auth_server@
                + "/auth/poll/"@ + session_id && opened.polls_made == 0,
            Err(e) => r matches Err(failed) && failed@ == e,
        },
{
    match reply {
        StartReply::SendFailed { reason } => Err(
            OAuthError::HostedAuth(prefixed("Failed to start auth: ", reason.as_str())),
        ),
        StartReply::Answered { status, body, decoded } => {
            if !status_is_success(status) {
                Err(OAuthError::HostedAuth(prefixed("Server error: ", body.as_str())))
            } else {
                match decoded {
                    Ok(started) => {
                        let poll_url = poll_url(auth_server, started.session_id.as_str());
                        Ok(
                            HostedLogin {
                                session_id: started.session_id,
                                auth_url: started.auth_url,
                                poll_url,
                                polls_made: 0,
                            },
                        )
                    },
                    Err(why) => Err(
                        OAuthError::HostedAuth(prefixed("Invalid response: ", why.as_str())),
                    ),
                }
            }
        },
    }
}

impl HostedLogin {
    /// Whether another poll may be made.
    pub fn may_poll(&self) -> (r: bool)
        ensures
            r == (self.polls_made < MAX_POLLS),
    {
        self.polls_made < MAX_POLLS
    }

    /// Takes the reply to one poll and says what to do next. The polls are
    /// counted: the login never asks for more than [`MAX_POLLS`] of them.
    pub fn polled(&mut self, reply: PollReply) -> (verdict: PollVerdict)
        ensures
            verdict@ == budgeted_verdict(old(self).polls_made as nat, reply),
            final(self).polls_made == if old(self).polls_made < MAX_POLLS {
                old(self).polls_made + 1
            } else {
                old(self).polls_made as int
            },
            verdict is Again ==> final(self).polls_made < MAX_POLLS,
            final(self).session_id == old(self).session_id,
            final(self).auth_url == old(self).auth_url,
            final(self).poll_url == old(self).poll_url,
    {
        if self.polls_made >= MAX_POLLS {
            return PollVerdict::Done { result: Err(OAuthError::SessionTimeout) };
        }
        self.polls_made = self.polls_made + 1;
        let verdict = judge_poll(reply);
        match verdict {
            PollVerdict::Again => {
                if self.polls_made >= MAX_POLLS {
                    PollVerdict::Done { result: Err(OAuthError::SessionTimeout) }
                } else {
                    PollVerdict::Again
                }
            },
            done => done,
        }
    }
}

} // verus!
