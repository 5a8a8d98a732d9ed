use ndl::token::authorization_url;
use ndl::token::exchange_code;
use ndl::token::exchange_code_request;
use ndl::token::exchange_for_long_lived_token;
use ndl::token::long_lived_token_request;
use ndl::token::parse_user_id;
use ndl::token::read_token_reply;
use ndl::token::refresh_access_token;
use ndl::token::refresh_token_request;
use ndl::token::status_is_success;
use ndl::token::user_id_from;
use ndl::token::HttpMethod;
use ndl::token::StringOrNumber;
use ndl::token::TokenExchangeError;
use ndl::token::TokenReply;
use ndl::token::TokenRequest;
use ndl::token::TokenResponse;
use ndl::token::UserIdError;
use ndl::token::OAUTH_SCOPES;
use ndl::token::TOKEN_URL;

fn params(request: &TokenRequest) -> Vec<(&str, &str)> {
    request.params.iter().map(|(k, v)| (k.as_str(), v.as_str())).collect()
}

fn token(text: &str) -> TokenResponse {
    TokenResponse { access_token: text.to_string(), user_id: Some(42), expires_in: Some(5184000) }
}

#[test]
fn code_exchange_request_is_a_form_post() {
    let request = exchange_code_request("id", "secret", "https://r/cb", "the-code");
    assert_eq!(request.method, HttpMethod::PostForm);
    assert_eq!(request.url, TOKEN_URL);
    assert_eq!(request.url, "https://graph.threads.net/oauth/access_token");
    assert_eq!(
        params(&request),
        vec![
            ("client_id", "id"),
            ("client_secret", "secret"),
            ("grant_type", "authorization_code"),
            ("redirect_uri", "https://r/cb"),
            ("code", "the-code"),
        ]
    );
}

#[test]
fn long_lived_and_refresh_requests() {
    let request = long_lived_token_request("secret", "short");
    assert_eq!(request.method, HttpMethod::Get);
    assert_eq!(request.url, "https://graph.threads.net/access_token");
    assert_eq!(
        params(&request),
        vec![("grant_type", "th_exchange_token"), ("client_secret", "secret"), ("access_token", "short")]
    );
    assert_eq!(
        request.address(),
        "https://graph.threads.net/access_token?grant_type=th_exchange_token&client_secret=secret&access_token=short"
    );
    let request = refresh_token_request("a b&c");
    assert_eq!(
        request.address(),
        "https://graph.threads.net/refresh_access_token?grant_type=th_refresh_token&access_token=a b&c"
    );
    assert_eq!(
        exchange_code_request("i", "s", "r", "c").address(),
        "https://graph.threads.net/oauth/access_token"
    );
    let bare = TokenRequest {
        method: HttpMethod::Get,
        url: "https://h/p".to_string(),
        params: vec![],
    };
    assert_eq!(bare.address(), "https://h/p");
    let request = refresh_token_request("long");
    assert_eq!(request.method, HttpMethod::Get);
    assert_eq!(request.url, "https://graph.threads.net/refresh_access_token");
    assert_eq!(params(&request), vec![("grant_type", "th_refresh_token"), ("access_token", "long")]);
}

#[test]
fn success_statuses() {
    assert!(!status_is_success(199));
    assert!(status_is_success(200));
    assert!(status_is_success(299));
    assert!(!status_is_success(300));
    assert!(!status_is_success(404));
}

#[test]
fn a_decoded_token_under_success_is_the_token() {
    let reply = TokenReply::Answered { status: 200, body: Ok("{}".to_string()), decoded: Ok(token("t")) };
    let got = exchange_code(reply).unwrap();
    assert_eq!(got.access_token, "t");
    assert_eq!(got.user_id, Some(42));
    assert_eq!(got.expires_in, Some(5184000));
}

#[test]
fn no_answer_is_a_request_error() {
    match read_token_reply(TokenReply::Unreachable { reason: "connection refused".to_string() }) {
        Err(TokenExchangeError::Request(why)) => assert_eq!(why, "connection refused"),
        other => panic!("unexpected {:?}", other),
    }
}

#[test]
fn a_refusal_carries_status_and_body() {
    let reply = TokenReply::Answered {
        status: 400,
        body: Ok("{\"error\":\"used\"}".to_string()),
        decoded: Ok(token("must not be used")),
    };
    match exchange_code(reply) {
        Err(TokenExchangeError::Http { status, body }) => {
            assert_eq!(status, 400);
            assert_eq!(body, "{\"error\":\"used\"}");
        }
        other => panic!("unexpected {:?}", other),
    }
    let reply = TokenReply::Answered {
        status: 502,
        body: Err("broken pipe".to_string()),
        decoded: Err("x".to_string()),
    };
    match exchange_code(reply) {
        Err(TokenExchangeError::Http { status, body }) => {
            assert_eq!(status, 502);
            assert_eq!(body, "");
        }
        other => panic!("unexpected {:?}", other),
    }
}

#[test]
fn unreadable_or_undecodable_answers_are_parse_errors() {
    let reply = TokenReply::Answered {
        status: 200,
        body: Err("stream ended".to_string()),
        decoded: Ok(token("ignored")),
    };
    match exchange_code(reply) {
        Err(TokenExchangeError::Parse(why)) => assert_eq!(why, "stream ended"),
        other => panic!("unexpected {:?}", other),
    }
    let reply = TokenReply::Answered {
        status: 200,
        body: Ok("<html>".to_string()),
        decoded: Err("expected value at line 1 column 1".to_string()),
    };
    match exchange_code(reply) {
        Err(TokenExchangeError::Parse(why)) => assert_eq!(why, "expected value at line 1 column 1: <html>"),
        other => panic!("unexpected {:?}", other),
    }
}

#[test]
fn second_hop_failure_is_the_failure_of_the_exchange() {
    let short = exchange_code(TokenReply::Answered {
        status: 200,
        body: Ok("{}".to_string()),
        decoded: Ok(token("short")),
    })
    .unwrap();
    let request = long_lived_token_request("secret", &short.access_token);
    assert_eq!(request.params[2].1, "short");
    let upgraded = exchange_for_long_lived_token(TokenReply::Answered {
        status: 500,
        body: Ok("oops".to_string()),
        decoded: Err("x".to_string()),
    });
    assert!(matches!(upgraded, Err(TokenExchangeError::Http { status: 500, .. })));
    let refreshed = refresh_access_token(TokenReply::Answered {
        status: 200,
        body: Ok("{}".to_string()),
        decoded: Ok(token("long")),
    });
    assert_eq!(refreshed.unwrap().access_token, "long");
}

#[test]
fn token_error_messages() {
    assert_eq!(TokenExchangeError::Request("x".into()).message(), "Request failed: x");
    assert_eq!(
        TokenExchangeError::Http { status: 404, body: "nope".into() }.message(),
        "HTTP 404: nope"
    );
    assert_eq!(TokenExchangeError::Http { status: 0, body: "".into() }.message(), "HTTP 0: ");
    assert_eq!(
        TokenExchangeError::Http { status: 65535, body: "b".into() }.message(),
        "HTTP 65535: b"
    );
    assert_eq!(TokenExchangeError::Parse("x".into()).message(), "Parse error: x");
}

#[test]
fn authorization_url_encodes_only_the_redirect() {
    assert_eq!(
        OAUTH_SCOPES,
        "threads_basic,threads_read_replies,threads_manage_replies,threads_content_publish"
    );
    let url = authorization_url("my id", "https://h/é?a=b&c=~x_y-z.0", Some("st ate"));
    assert_eq!(
        url,
        "https://threads.net/oauth/authorize?client_id=my id&redirect_uri=https%3A%2F%2Fh%2F%C3%A9%3Fa%3Db%26c%3D~x_y-z.0&scope=threads_basic,threads_read_replies,threads_manage_replies,threads_content_publish&response_type=code&state=st ate"
    );
    let url = authorization_url("id", "plain", None);
    assert!(url.ends_with("&response_type=code"));
    assert!(url.contains("redirect_uri=plain&"));
}

#[test]
fn user_ids_are_numbers_or_texts_of_numbers() {
    assert_eq!(user_id_from(None), Ok(None));
    assert_eq!(user_id_from(Some(StringOrNumber::Number(17))), Ok(Some(17)));
    assert_eq!(user_id_from(Some(StringOrNumber::String("12345678901234567".to_string()))), Ok(Some(12345678901234567)));
    assert_eq!(user_id_from(Some(StringOrNumber::String("x".to_string()))), Err(UserIdError::InvalidDigit));
    assert_eq!(parse_user_id("0"), Ok(0));
    assert_eq!(parse_user_id("+42"), Ok(42));
    assert_eq!(parse_user_id("007"), Ok(7));
    assert_eq!(parse_user_id("18446744073709551615"), Ok(u64::MAX));
    assert_eq!(parse_user_id("18446744073709551616"), Err(UserIdError::TooLarge));
    assert_eq!(parse_user_id("184467440737095516150"), Err(UserIdError::TooLarge));
    assert_eq!(parse_user_id(""), Err(UserIdError::Empty));
    assert_eq!(parse_user_id("+"), Err(UserIdError::InvalidDigit));
    assert_eq!(parse_user_id("-1"), Err(UserIdError::InvalidDigit));
    assert_eq!(parse_user_id(" 1"), Err(UserIdError::InvalidDigit));
    assert_eq!(parse_user_id("1e3"), Err(UserIdError::InvalidDigit));
    assert_eq!(parse_user_id("١٢"), Err(UserIdError::InvalidDigit));
    for text in ["", "+", "12", "99999999999999999999", "4x", "+0"] {
        let ours = parse_user_id(text).map_err(|e| e.message().to_string());
        let std_says = text.parse::<u64>().map_err(|e| e.to_string());
        assert_eq!(ours, std_says, "for {:?}", text);
    }
}
