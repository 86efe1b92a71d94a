use insync::oauth::{
    callback_address, callback_reply, google_auth_mode, handle_callback_request, http_response_text,
    required_credential, CallbackResult, GoogleAuthMode, RedirectProblem,
};

const REDIRECT: &str = "http://127.0.0.1:8765/oauth2/callback";

#[test]
fn exactly_one_google_auth_mode() {
    assert_eq!(google_auth_mode(true, false, false), Some(GoogleAuthMode::PrintUrl));
    assert_eq!(google_auth_mode(false, true, false), Some(GoogleAuthMode::Callback));
    assert_eq!(google_auth_mode(false, false, true), Some(GoogleAuthMode::Code));
    assert_eq!(google_auth_mode(false, false, false), None);
    assert_eq!(google_auth_mode(true, true, false), None);
}

#[test]
fn callback_listener_needs_plain_http_on_loopback_with_port() {
    let address = callback_address(REDIRECT).unwrap();
    assert_eq!(address.bind_host, "127.0.0.1");
    assert_eq!(address.port, 8765);
    assert_eq!(address.path, "/oauth2/callback");
    assert_eq!(callback_address("http://localhost:9000/cb").unwrap().bind_host, "127.0.0.1");
    assert_eq!(callback_address("https://127.0.0.1:8765/cb").unwrap_err(), RedirectProblem::NotHttp);
    assert_eq!(callback_address("http://example.com:8765/cb").unwrap_err(), RedirectProblem::NotLoopback);
    assert_eq!(callback_address("http://127.0.0.1/cb").unwrap_err(), RedirectProblem::MissingPort);
    assert_eq!(callback_address("not a url").unwrap_err(), RedirectProblem::Unparsable);
}

#[test]
fn callback_request_yields_the_code() {
    let request = "GET /oauth2/callback?state=abc&code=4%2F0Ab HTTP/1.1\r\nHost: 127.0.0.1\r\n\r\n";
    let result = handle_callback_request(request, REDIRECT, "/oauth2/callback", "abc");
    assert_eq!(result, CallbackResult::Code("4/0Ab".to_string()));
    let reply = callback_reply(&result).unwrap();
    assert_eq!(reply.0, 200);
}

#[test]
fn callback_request_failures() {
    let check = |request: &str| handle_callback_request(request, REDIRECT, "/oauth2/callback", "abc");
    assert_eq!(check(""), CallbackResult::EmptyRequest);
    assert_eq!(check("GET\r\n"), CallbackResult::MissingPath);
    assert_eq!(check("GET /other?state=abc&code=x HTTP/1.1"), CallbackResult::UnexpectedPath("/other".to_string()));
    assert_eq!(check("GET /oauth2/callback?state=zzz&code=x HTTP/1.1"), CallbackResult::InvalidState);
    assert_eq!(check("GET /oauth2/callback?code=x HTTP/1.1"), CallbackResult::InvalidState);
    assert_eq!(
        check("GET /oauth2/callback?state=abc&error=access_denied HTTP/1.1"),
        CallbackResult::AuthorizationFailed("access_denied".to_string())
    );
    assert_eq!(check("GET /oauth2/callback?state=abc HTTP/1.1"), CallbackResult::MissingCode);
    assert_eq!(check("GET /oauth2/callback?state=x&state=abc&code=y HTTP/1.1"), CallbackResult::Code("y".to_string()));
    assert_eq!(callback_reply(&CallbackResult::InvalidState).unwrap().0, 400);
    assert_eq!(callback_reply(&CallbackResult::UnexpectedPath("/x".to_string())).unwrap().0, 404);
    assert!(callback_reply(&CallbackResult::MissingCode).is_none());
}

#[test]
fn http_reply_counts_body_bytes() {
    assert_eq!(
        http_response_text(400, "Bad Request", "Invalid OAuth state"),
        "HTTP/1.1 400 Bad Request\r\nContent-Type: text/plain; charset=utf-8\r\nContent-Length: 19\r\nConnection: close\r\n\r\nInvalid OAuth state"
    );
    assert!(http_response_text(200, "OK", "é").contains("Content-Length: 2\r\n"));
}

#[test]
fn credentials_must_not_be_blank() {
    assert_eq!(required_credential(Some(" id ".to_string()), "google.clientId"), Ok(" id ".to_string()));
    assert_eq!(
        required_credential(Some("  ".to_string()), "google.clientId"),
        Err("google.clientId is required".to_string())
    );
    assert_eq!(
        required_credential(None, "google client secret"),
        Err("google client secret is required".to_string())
    );
}
