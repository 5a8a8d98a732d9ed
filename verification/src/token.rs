//! The token endpoint of the identity provider: what is sent to it and how
//! its answers are read.
//!
//! Sending and receiving are the caller's work. This module says which
//! request to send for each kind of exchange, and turns what came back
//! (a transport failure, a status and a body, a decoded token document) into
//! a token or an exchange error.

use crate::encoding::percent_encode;
use crate::encoding::percent_encoded;
use crate::text::decimal;
use crate::text::decimal_text;
use vstd::prelude::*;
use vstd::string::*;

verus! {

/// Where authorization codes are exchanged for tokens.
pub const TOKEN_URL: &'static str = "https://graph.threads.net/oauth/access_token";

/// The scopes every authorization asks for.
pub const OAUTH_SCOPES: &'static str =
    "threads_basic,threads_read_replies,threads_manage_replies,threads_content_publish";

/// Where the end user is sent to grant access.
pub const AUTHORIZE_URL: &'static str = "https://threads.net/oauth/authorize";

/// The address that sends the end user to the provider: the client id as it
/// is, the redirect address percent-encoded, the fixed scopes, the response
/// type `code`, and the state token, where there is one, as it is.
pub open spec fn authorization_url_text(
    client_id: Seq<char>,
    redirect_uri: Seq<char>,
    state: Option<Seq<char>>,
) -> Seq<char> {
    let base = AUTHORIZE_URL@ + "?client_id="@ + client_id + "&redirect_uri="@ + percent_encoded(
        redirect_uri,
    ) + "&scope="@ + OAUTH_SCOPES@ + "&response_type=code"@;
    match state {
        Some(token) => base + "&state="@ + token,
        None => base,
    }
}

/// Builds the address that sends the end user to the provider.
pub fn authorization_url(client_id: &str, redirect_uri: &str, state: Option<&str>) -> (url: String)
    ensures
        url@ == authorization_url_text(
            client_id@,
            redirect_uri@,
            match state {
                Some(token) => Some(token@),
                None => None,
            },
        ),
{
    let mut url = String::from_str(AUTHORIZE_URL);
    url.append("?client_id=");
    url.append(client_id);
    url.append("&redirect_uri=");
    let encoded = percent_encode(redirect_uri);
    url.append(encoded.as_str());
    url.append("&scope=");
    url.append(OAUTH_SCOPES);
    url.append("&response_type=code");
    match state {
        Some(token) => {
            url.append("&state=");
            url.append(token);
        },
        None => {},
    }
    url
}

/// A token as the provider hands it out.
#[derive(Debug, Clone)]
pub struct TokenResponse {
    pub access_token: String,
    pub user_id: Option<u64>,
    /// Seconds until the token expires.
    pub expires_in: Option<u64>,
}

/// Mathematical value of a [`TokenResponse`].
pub struct TokenView {
    pub access_token: Seq<char>,
    pub user_id: Option<u64>,
    pub expires_in: Option<u64>,
}

impl View for TokenResponse {
    type V = TokenView;

    open spec fn view(&self) -> TokenView {
        TokenView {
            access_token: self.access_token@,
            user_id: self.user_id,
            expires_in: self.expires_in,
        }
    }
}

/// Why an exchange with the token endpoint failed.
#[derive(Debug, Clone)]
pub enum TokenExchangeError {
    /// The request never got an answer.
    Request(String),
    /// The provider answered with a status that is not a success.
    Http { status: u16, body: String },
    /// The answer could not be read as a token.
    Parse(String),
}

/// Mathematical value of a [`TokenExchangeError`].
pub enum TokenErrorView {
    Request(Seq<char>),
    Http { status: u16, body: Seq<char> },
    Parse(Seq<char>),
}

impl TokenErrorView {
    /// The error as a line of text.
    pub open spec fn message(self) -> Seq<char> {
        match self {
            TokenErrorView::Request(reason) => "Request failed: "@ + reason,
            TokenErrorView::Http { status, body } => "HTTP "@ + decimal(status as nat) + ": "@
                + body,
            TokenErrorView::Parse(reason) => "Parse error: "@ + reason,
        }
    }
}

impl View for TokenExchangeError {
    type V = TokenErrorView;

    open spec fn view(&self) -> TokenErrorView {
        match self {
            TokenExchangeError::Request(reason) => TokenErrorView::Request(reason@),
            TokenExchangeError::Http { status, body } => TokenErrorView::Http {
                status: *status,
                body: body@,
            },
            TokenExchangeError::Parse(reason) => TokenErrorView::Parse(reason@),
        }
    }
}

impl TokenExchangeError {
    /// The error as a line of text.
    pub fn message(&self) -> (text: String)
        ensures
            text@ == self@.message(),
    {
        match self {
            TokenExchangeError::Request(reason) => {
                let mut text = String::from_str("Request failed: ");
                text.append(reason.as_str());
                text
            },
            TokenExchangeError::Http { status, body } => {
                let mut text = String::from_str("HTTP ");
                let number = decimal_text(*status as u64);
                text.append(number.as_str());
                text.append(": ");
                text.append(body.as_str());
                text
            },
            TokenExchangeError::Parse(reason) => {
                let mut text = String::from_str("Parse error: ");
                text.append(reason.as_str());
                text
            },
        }
    }
}

/// How a request is sent.
#[derive(Debug, Clone, Copy, PartialEq, Eq, Structural)]
pub enum HttpMethod {
    Get,
    /// The parameters travel as a form in the body.
    PostForm,
}

/// A request to the token endpoint: where it goes and what it carries.
/// For `Get` the parameters are the query of the URL, in this order.
#[derive(Debug, Clone)]
pub struct TokenRequest {
    pub method: HttpMethod,
    pub url: String,
    pub params: Vec<(String, String)>,
}

/// Mathematical value of a [`TokenRequest`].
pub struct TokenRequestView {
    pub method: HttpMethod,
    pub url: Seq<char>,
    pub params: Seq<(Seq<char>, Seq<char>)>,
}

impl View for TokenRequest {
    type V = TokenRequestView;

    open spec fn view(&self) -> TokenRequestView {
        TokenRequestView {
            method: self.method,
            url: self.url@,
            params: Seq::new(
                self.params@.len(),
                |i: int| (self.params@[i].0@, self.params@[i].1@),
            ),
        }
    }
}

/// The query of a request: `name=value` for each parameter, in order,
/// with `&` between them. Nothing is encoded.
pub open spec fn query_text(params: Seq<(Seq<char>, Seq<char>)>) -> Seq<char>
    decreases params.len(),
{
    if params.len() == 0 {
        Seq::empty()
    } else {
        let last = params.last().0 + "="@ + params.last().1;
        if params.len() == 1 {
            last
        } else {
            query_text(params.drop_last()) + "&"@ + last
        }
    }
}

/// The address a request is sent to: for `Get` the URL, `?` and the query,
/// where there are parameters; else the URL alone.
pub open spec fn request_address(request: TokenRequestView) -> Seq<char> {
    if request.method == HttpMethod::Get && request.params.len() > 0 {
        request.url + "?"@ + query_text(request.params)
    } else {
        request.url
    }
}

impl TokenRequest {
    /// The address the request is sent to.
    pub fn address(&self) -> (text: String)
        ensures
            text@ == request_address(self@),
    {
        let mut text = self.url.clone();
        match self.method {
            HttpMethod::PostForm => {
                return text;
            },
            HttpMethod::Get => {},
        }
        let ghost params = self@.params;
        let mut i: usize = 0;
        while i < self.params.len()
            invariant
                i <= self.params.len(),
                params == self@.params,
                params.len() == self.params@.len(),
                text@ == if i == 0 {
                    self.url@
                } else {
                    self.url@ + "?"@ + query_text(params.take(i as int))
                },
            decreases self.params.len() - i,
        {
            proof {
                assert(params.take(i + 1).drop_last() =~= params.take(i as int));
                assert(params.take(i + 1).last() == params[i as int]);
                assert(params[i as int] == (self.params@[i as int].0@, self.params@[i as int].1@));
            }
            if i == 0 {
                text.append("?");
            } else {
                text.append("&");
            }
            let ghost before = text@;
            text.append(self.params[i].0.as_str());
            text.append("=");
            text.append(self.params[i].1.as_str());
            assert(text@ =~= before + (params[i as int].0 + "="@ + params[i as int].1));
            assert(text@ =~= self.url@ + "?"@ + query_text(params.take(i + 1)));
            i += 1;
        }
        assert(params.take(self.params.len() as int) =~= params);
        text
    }
}

/// The request that trades an authorization code for a token.
pub open spec fn code_exchange_request(
    client_id: Seq<char>,
    client_secret: Seq<char>,
    redirect_uri: Seq<char>,
    code: Seq<char>,
) -> TokenRequestView {
    TokenRequestView {
        method: HttpMethod::PostForm,
        url: TOKEN_URL@,
        params: seq![
            ("client_id"@, client_id),
            ("client_secret"@, client_secret),
            ("grant_type"@, "authorization_code"@),
            ("redirect_uri"@, redirect_uri),
            ("code"@, code),
        ],
    }
}

/// The request that trades a short-lived token for a long-lived one.
pub open spec fn long_lived_request(
    client_secret: Seq<char>,
    short_lived_token: Seq<char>,
) -> TokenRequestView {
    TokenRequestView {
        method: HttpMethod::Get,
        url: "https://graph.threads.net/access_token"@,
        params: seq![
            ("grant_type"@, "th_exchange_token"@),
            ("client_secret"@, client_secret),
            ("access_token"@, short_lived_token),
        ],
    }
}

/// The request that extends the life of a long-lived token.
pub open spec fn refresh_request(long_lived_token: Seq<char>) -> TokenRequestView {
    TokenRequestView {
        method: HttpMethod::Get,
        url: "https://graph.threads.net/refresh_access_token"@,
        params: seq![
            ("grant_type"@, "th_refresh_token"@),
            ("access_token"@, long_lived_token),
        ],
    }
}

fn pair(name: &str, value: &str) -> (p: (String, String))
    ensures
        p.0@ == name@,
        p.1@ == value@,
{
    (String::from_str(name), String::from_str(value))
}

/// Builds the request that trades the authorization code `code` for a token.
pub fn exchange_code_request(
    client_id: &str,
    client_secret: &str,
    redirect_uri: &str,
    code: &str,
) -> (request: TokenRequest)
    ensures
        request@ == code_exchange_request(client_id@, client_secret@, redirect_uri@, code@),
{
    let mut params: Vec<(String, String)> = Vec::new();
    params.push(pair("client_id", client_id));
    params.push(pair("client_secret", client_secret));
    params.push(pair("grant_type", "authorization_code"));
    params.push(pair("redirect_uri", redirect_uri));
    params.push(pair("code", code));
    let request = TokenRequest {
        method: HttpMethod::PostForm,
        url: String::from_str(TOKEN_URL),
        params,
    };
    assert(request@.params =~= code_exchange_request(
        client_id@,
        client_secret@,
        redirect_uri@,
        code@,
    ).params);
    request
}

/// Builds the request that trades a short-lived token for a long-lived one.
pub fn long_lived_token_request(client_secret: &str, short_lived_token: &str) -> (request:
    TokenRequest)
    ensures
        request@ == long_lived_request(client_secret@, short_lived_token@),
{
    let mut params: Vec<(String, String)> = Vec::new();
    params.push(pair("grant_type", "th_exchange_token"));
    params.push(pair("client_secret", client_secret));
    params.push(pair("access_token", short_lived_token));
    let request = TokenRequest {
        method: HttpMethod::Get,
        url: String::from_str("https://graph.threads.net/access_token"),
        params,
    };
    assert(request@.params =~= long_lived_request(client_secret@, short_lived_token@).params);
    request
}

/// Builds the request that extends the life of a long-lived token.
pub fn refresh_token_request(long_lived_token: &str) -> (request: TokenRequest)
    ensures
        request@ == refresh_request(long_lived_token@),
{
    let mut params: Vec<(String, String)> = Vec::new();
    params.push(pair("grant_type", "th_refresh_token"));
    params.push(pair("access_token", long_lived_token));
    let request = TokenRequest {
        method: HttpMethod::Get,
        url: String::from_str("https://graph.threads.net/refresh_access_token"),
        params,
    };
    assert(request@.params =~= refresh_request(long_lived_token@).params);
    request
}

/// What came back from the token endpoint, as the transport saw it.
#[derive(Debug)]
pub enum TokenReply {
    /// No answer: the request failed on the way.
    Unreachable { reason: String },
    /// An answer with its status. `body` is the text of the answer, or why it
    /// could not be read. `decoded` is what reading that text as a token
    /// document gave; it counts only where the status is a success and the
    /// body was read.
    Answered { status: u16, body: Result<String, String>, decoded: Result<TokenResponse, String> },
}

/// Mathematical value of a [`TokenReply`].
pub enum TokenReplyView {
    Unreachable { reason: Seq<char> },
    Answered {
        status: u16,
        body: Result<Seq<char>, Seq<char>>,
        decoded: Result<TokenView, Seq<char>>,
    },
}

impl View for TokenReply {
    type V = TokenReplyView;

    open spec fn view(&self) -> TokenReplyView {
        match self {
            TokenReply::Unreachable { reason } => TokenReplyView::Unreachable { reason: reason@ },
            TokenReply::Answered { status, body, decoded } => TokenReplyView::Answered {
                status: *status,
                body: match body {
                    Ok(text) => Ok(text@),
                    Err(why) => Err(why@),
                },
                decoded: match decoded {
                    Ok(token) => Ok(token@),
                    Err(why) => Err(why@),
                },
            },
        }
    }
}

/// The statuses that count as success: 200 to 299.
pub open spec fn is_success_status(status: u16) -> bool {
    200 <= status <= 299
}

/// What a reply amounts to.
///
/// No answer is a `Request` error. A status outside 200..=299 is an `Http`
/// error that carries the body (empty where it could not be read). With a
/// success status, an unreadable body is a `Parse` error, and so is a body
/// that is no token document: that one names the body after the reason.
/// Only a decoded token under a success status is a token.
pub open spec fn token_reply_outcome(reply: TokenReplyView) -> Result<TokenView, TokenErrorView> {
    match reply {
        TokenReplyView::Unreachable { reason } => Err(TokenErrorView::Request(reason)),
        TokenReplyView::Answered { status, body, decoded } => {
            if !is_success_status(status) {
                Err(
                    TokenErrorView::Http {
                        status,
                        body: match body {
                            Ok(text) => text,
                            Err(_) => Seq::empty(),
                        },
                    },
                )
            } else {
                match body {
                    Err(why) => Err(TokenErrorView::Parse(why)),
                    Ok(text) => match decoded {
                        Ok(token) => Ok(token),
                        Err(why) => Err(TokenErrorView::Parse(why + ": "@ + text)),
                    },
                }
            }
        },
    }
}

/// The view of a result of an exchange.
pub open spec fn outcome_view(r: Result<TokenResponse, TokenExchangeError>) -> Result<
    TokenView,
    TokenErrorView,
> {
    match r {
        Ok(token) => Ok(token@),
        Err(e) => Err(e@),
    }
}

/// Whether `status` counts as success.
pub fn status_is_success(status: u16) -> (r: bool)
    ensures
        r == is_success_status(status),
{
    200 <= status && status <= 299
}

/// Reads a reply of the token endpoint: the token, or why there is none.
pub fn read_token_reply(reply: TokenReply) -> (r: Result<TokenResponse, TokenExchangeError>)
    ensures
        outcome_view(r) == token_reply_outcome(reply@),
{
    match reply {
        TokenReply::Unreachable { reason } => Err(TokenExchangeError::Request(reason)),
        TokenReply::Answered { status, body, decoded } => {
            if !status_is_success(status) {
                let text = match body {
                    Ok(text) => text,
                    Err(_) => String::new(),
                };
                Err(TokenExchangeError::Http { status, body: text })
            } else {
                match body {
                    Err(why) => Err(TokenExchangeError::Parse(why)),
                    Ok(text) => match decoded {
                        Ok(token) => Ok(token),
                        Err(why) => {
                            let mut message = why;
                            message.append(": ");
                            message.append(text.as_str());
                            Err(TokenExchangeError::Parse(message))
                        },
                    },
                }
            }
        },
    }
}

/// The outcome of trading an authorization code for a token, from the reply
/// to [`exchange_code_request`].
pub fn exchange_code(reply: TokenReply) -> (r: Result<TokenResponse, TokenExchangeError>)
    ensures
        outcome_view(r) == token_reply_outcome(reply@),
{
    read_token_reply(reply)
}

/// The outcome of trading a short-lived token for a long-lived one, from the
/// reply to [`long_lived_token_request`]. A failure here is the failure of
/// the whole exchange: the short-lived token is never handed out in place of
/// the long-lived one.
pub fn exchange_for_long_lived_token(reply: TokenReply) -> (r: Result<
    TokenResponse,
    TokenExchangeError,
>)
    ensures
        outcome_view(r) == token_reply_outcome(reply@),
{
    read_token_reply(reply)
}

/// The outcome of refreshing a long-lived token, from the reply to
/// [`refresh_token_request`].
pub fn refresh_access_token(reply: TokenReply) -> (r: Result<TokenResponse, TokenExchangeError>)
    ensures
        outcome_view(r) == token_reply_outcome(reply@),
{
    read_token_reply(reply)
}

/// A reply yields a token only where the endpoint answered with a success
/// status, the body was read and it decoded to that very token.
pub proof fn lemma_token_only_from_success(reply: TokenReplyView)
    ensures
        token_reply_outcome(reply) is Ok <==> (reply matches TokenReplyView::Answered {
            status,
            body,
            decoded,
        } && is_success_status(status) && body is Ok && decoded is Ok),
        token_reply_outcome(reply) matches Ok(token) ==> reply->decoded == Ok::<
            TokenView,
            Seq<char>,
        >(token),
{
}

/// A user id as the provider writes it: sometimes a number, sometimes the
/// same number as a text.
#[derive(Debug, Clone)]
pub enum StringOrNumber {
    String(String),
    Number(u64),
}

/// Why a text is no user id.
#[derive(Debug, Clone, Copy, PartialEq, Eq, Structural)]
pub enum UserIdError {
    /// The text is empty.
    Empty,
    /// The text holds something that is no decimal digit.
    InvalidDigit,
    /// The number does not fit into 64 bits.
    TooLarge,
}

impl UserIdError {
    /// The error as a line of text.
    pub fn message(&self) -> (text: &'static str)
        ensures
            text@ == match self {
                UserIdError::Empty => "cannot parse integer from empty string"@,
                UserIdError::InvalidDigit => "invalid digit found in string"@,
                UserIdError::TooLarge => "number too large to fit in target type"@,
            },
    {
        match self {
            UserIdError::Empty => "cannot parse integer from empty string",
            UserIdError::InvalidDigit => "invalid digit found in string",
            UserIdError::TooLarge => "number too large to fit in target type",
        }
    }
}

/// Reading the digits of `s` from position `i` on, with `acc` read so
/// far: the first character that is no digit, or the first digit that
/// takes the number beyond 64 bits, is the error.
pub open spec fn digits_from(s: Seq<char>, i: int, acc: nat) -> Result<u64, UserIdError>
    decreases s.len() - i,
{
    if i < 0 || i >= s.len() {
        if acc <= u64::MAX {
            Ok(acc as u64)
        } else {
            Err(UserIdError::TooLarge)
        }
    } else if !('0' <= s[i] <= '9') {
        Err(UserIdError::InvalidDigit)
    } else if acc * 10 + (s[i] as u32 - 0x30) > u64::MAX {
        Err(UserIdError::TooLarge)
    } else {
        digits_from(s, i + 1, (acc * 10 + (s[i] as u32 - 0x30)) as nat)
    }
}

/// The number a text stands for: decimal digits, after a `+` or without.
/// A lone `+` holds no digit where one is due.
pub open spec fn user_id_of_text(s: Seq<char>) -> Result<u64, UserIdError> {
    if s.len() == 0 {
        Err(UserIdError::Empty)
    } else if s[0] == '+' {
        if s.len() == 1 {
            Err(UserIdError::InvalidDigit)
        } else {
            digits_from(s, 1, 0)
        }
    } else {
        digits_from(s, 0, 0)
    }
}

/// Reads a user id written as a text.
pub fn parse_user_id(text: &str) -> (r: Result<u64, UserIdError>)
    ensures
        r == user_id_of_text(text@),
{
    let n = text.unicode_len();
    if n == 0 {
        return Err(UserIdError::Empty);
    }
    let mut i: usize = 0;
    if text.get_char(0) == '+' {
        if n == 1 {
            return Err(UserIdError::InvalidDigit);
        }
        i = 1;
    }
    let mut acc: u64 = 0;
    while i < n
        invariant
            i <= n,
            n == text@.len(),
            user_id_of_text(text@) == digits_from(text@, i as int, acc as nat),
        decreases n - i,
    {
        let c = text.get_char(i);
        if !('0' <= c && c <= '9') {
            return Err(UserIdError::InvalidDigit);
        }
        let d: u64 = (c as u32 - 0x30) as u64;
        if acc > (u64::MAX - d) / 10 {
            assert(acc * 10 + d > u64::MAX);
            return Err(UserIdError::TooLarge);
        }
        assert(acc * 10 + d <= u64::MAX);
        acc = acc * 10 + d;
        i += 1;
    }
    Ok(acc)
}

/// The user id in a token document: a number as it is, a text read as a
/// number, and none where the document has none.
pub open spec fn user_id_in(raw: Option<StringOrNumber>) -> Result<Option<u64>, UserIdError> {
    match raw {
        Some(StringOrNumber::String(text)) => match user_id_of_text(text@) {
            Ok(id) => Ok(Some(id)),
            Err(e) => Err(e),
        },
        Some(StringOrNumber::Number(id)) => Ok(Some(id)),
        None => Ok(None),
    }
}

/// Reads the user id of a token document.
pub fn user_id_from(raw: Option<StringOrNumber>) -> (r: Result<Option<u64>, UserIdError>)
    ensures
        r == user_id_in(raw),
{
    match raw {
        Some(StringOrNumber::String(text)) => match parse_user_id(text.as_str()) {
            Ok(id) => Ok(Some(id)),
            Err(e) => Err(e),
        },
        Some(StringOrNumber::Number(id)) => Ok(Some(id)),
        None => Ok(None),
    }
}

} // verus!
