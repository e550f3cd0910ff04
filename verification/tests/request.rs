use std::path::PathBuf;

use shengsuanyun::error::{ErrorKind, LoginError};
use shengsuanyun::options::ServerOptions;
use shengsuanyun::request::{
    after_exchange, after_save, login_error_response, process_request, read_target, route_request,
    ExchangeStep, HandledRequest, RequestStep, RequestUrl,
};
use shengsuanyun::server::{join_outcome, on_event, Reply, ServerEvent};
use shengsuanyun::message::Header;
use shengsuanyun::token::{
    auth_record, auth_record_now, build_token_request, check_token_response, exchanged_tokens,
    persist_outcome, ExchangedTokens, Timestamp, TokenReply, TokenRequest,
};

const REDIRECT: &str = "http://localhost:1455/auth/callback";
const PAGE: &[u8] = b"<p>done</p>";

fn text_answer(handled: HandledRequest) -> (u16, String) {
    match handled {
        HandledRequest::Response { status, text } => (status, text),
        other => panic!("unexpected answer {:?}", other),
    }
}

fn done(url: &str) -> HandledRequest {
    match process_request(url, REDIRECT, PAGE) {
        RequestStep::Done(handled) => handled,
        RequestStep::Exchange(request) => panic!("unexpected exchange {:?}", request),
    }
}

fn exchange(url: &str) -> TokenRequest {
    match process_request(url, REDIRECT, PAGE) {
        RequestStep::Exchange(request) => request,
        RequestStep::Done(handled) => panic!("unexpected answer {:?}", handled),
    }
}

#[test]
fn callback_exchanges_its_code() {
    let request = exchange("/auth/callback?code=abc-1&state=x");
    assert_eq!(request.url, "https://api.shengsuanyun.com/auth/keys");
    assert_eq!(request.content_type, "application/json");
    assert_eq!(
        request.body,
        "{\"code\":\"abc-1\",\"redirect_uri\":\"http://localhost:1455/auth/callback\"}"
    );
}

#[test]
fn callback_takes_the_last_code_and_decodes_it() {
    let request = exchange("/auth/callback?code=first&code=a%20%22b%22%26%E4%B8%AD");
    assert_eq!(
        request.body,
        "{\"code\":\"a \\\"b\\\"&\u{4e2d}\",\"redirect_uri\":\"http://localhost:1455/auth/callback\"}"
    );
}

#[test]
fn callback_without_a_code_is_a_bad_request() {
    for url in [
        "/auth/callback",
        "/auth/callback?",
        "/auth/callback?code=",
        "/auth/callback?code",
        "/auth/callback?state=x",
        "/auth/callback?code=a&code=",
    ] {
        assert_eq!(
            text_answer(done(url)),
            (400, "Missing authorization code".to_string())
        );
    }
}

#[test]
fn unknown_paths_are_not_found() {
    for url in ["/", "/auth", "/auth/callback/", "/Cancel", "/cancel/x", "/favicon.ico"] {
        assert_eq!(text_answer(done(url)), (404, "Not Found".to_string()));
    }
}

#[test]
fn unreadable_targets_are_bad_requests() {
    assert_eq!(text_answer(done(":port/")), (400, "Bad Request".to_string()));
    let failed: Result<RequestUrl, String> = Err("broken".to_string());
    match route_request(&failed, REDIRECT, PAGE) {
        RequestStep::Done(handled) => {
            assert_eq!(text_answer(handled), (400, "Bad Request".to_string()))
        }
        RequestStep::Exchange(_) => panic!("nothing to exchange"),
    }
}

#[test]
fn targets_are_read_as_path_and_query() {
    let url = read_target("/a/b-c_~?x=1&&y&=z&x=%2B+").unwrap();
    assert_eq!(url.path, "/a/b-c_~");
    let pairs: Vec<(&str, &str)> = url
        .query
        .iter()
        .map(|(name, value)| (name.as_str(), value.as_str()))
        .collect();
    assert_eq!(pairs, vec![("x", "1"), ("y", ""), ("", "z"), ("x", "+ ")]);
    assert_eq!(read_target("//x").unwrap().path, "//x");
    assert!(read_target(":port/").is_err());
}

#[test]
fn success_page_ends_the_login_well() {
    match done("/success") {
        HandledRequest::ResponseAndExit { headers, body, result } => {
            assert_eq!(headers.len(), 1);
            assert_eq!(headers[0].field(), "Content-Type");
            assert_eq!(headers[0].value(), "text/html; charset=utf-8");
            assert_eq!(body, PAGE);
            assert_eq!(result, Ok(()));
        }
        other => panic!("unexpected answer {:?}", other),
    }
}

#[test]
fn cancel_ends_the_login_badly() {
    match done("/cancel") {
        HandledRequest::ResponseAndExit { headers, body, result } => {
            assert!(headers.is_empty());
            assert_eq!(body, b"Login cancelled");
            assert_eq!(
                result,
                Err(LoginError {
                    kind: ErrorKind::Interrupted,
                    message: "Login cancelled".to_string(),
                })
            );
        }
        other => panic!("unexpected answer {:?}", other),
    }
}

#[test]
fn error_response_refuses_the_login() {
    match login_error_response("no \u{e9}") {
        HandledRequest::ResponseAndExit { headers, body, result } => {
            assert_eq!(headers.len(), 1);
            assert_eq!(headers[0].field(), "Content-Type");
            assert_eq!(headers[0].value(), "text/plain; charset=utf-8");
            assert_eq!(body, "no \u{e9}".as_bytes());
            assert_eq!(
                result,
                Err(LoginError {
                    kind: ErrorKind::PermissionDenied,
                    message: "no \u{e9}".to_string(),
                })
            );
        }
        other => panic!("unexpected answer {:?}", other),
    }
}

#[test]
fn token_request_escapes_its_values() {
    assert_eq!(
        build_token_request("\\\u{8}\t\n\u{c}\r\u{1}\u{1f}\u{7f}", "\"").body,
        "{\"code\":\"\\\"\",\"redirect_uri\":\"\\\\\\b\\t\\n\\f\\r\\u0001\\u001f\u{7f}\"}"
    );
}

#[test]
fn only_success_statuses_go_on() {
    assert_eq!(check_token_response(Ok(200)), Ok(()));
    assert_eq!(check_token_response(Ok(299)), Ok(()));
    assert_eq!(
        check_token_response(Ok(404)).unwrap_err().message,
        "token endpoint returned status 404 Not Found"
    );
    assert_eq!(
        check_token_response(Ok(300)).unwrap_err().message,
        "token endpoint returned status 300 Multiple Choices"
    );
    assert_eq!(
        check_token_response(Ok(599)).unwrap_err().message,
        "token endpoint returned status 599 <unknown status code>"
    );
    assert_eq!(
        check_token_response(Err("no route".to_string())),
        Err(LoginError {
            kind: ErrorKind::Other,
            message: "no route".to_string(),
        })
    );
}

fn tokens() -> ExchangedTokens {
    exchanged_tokens(Ok(TokenReply {
        api_key: "key".to_string(),
        jwt_token: "jwt".to_string(),
    }))
    .unwrap_or_else(|error| panic!("{:?}", error))
}

fn options() -> ServerOptions<u8> {
    ServerOptions::new(PathBuf::from("/home"), "id".to_string(), None, 3)
}

#[test]
fn api_key_serves_as_access_and_refresh_token() {
    let tokens = tokens();
    assert_eq!(tokens.id_token, "jwt");
    assert_eq!(tokens.access_token, "key");
    assert_eq!(tokens.refresh_token, "key");
    match exchanged_tokens(Err("bad json".to_string())) {
        Err(error) => assert_eq!(
            error,
            LoginError {
                kind: ErrorKind::Other,
                message: "bad json".to_string(),
            }
        ),
        Ok(_) => panic!("no tokens"),
    }
}

#[test]
fn exchanged_tokens_are_saved() {
    match after_exchange(&options(), Ok(tokens())) {
        ExchangeStep::Save(save) => {
            assert_eq!(save.codex_home, PathBuf::from("/home"));
            assert_eq!(save.api_key, Some("key".to_string()));
            assert_eq!(save.id_token, "jwt");
            assert_eq!(save.access_token, "key");
            assert_eq!(save.refresh_token, "key");
            assert_eq!(save.store_mode, 3);
        }
        ExchangeStep::Done(handled) => panic!("unexpected answer {:?}", handled),
    }
    match after_exchange(&options(), Err(LoginError::other("no"))) {
        ExchangeStep::Done(handled) => {
            assert_eq!(text_answer(handled), (500, "Token exchange failed: no".to_string()))
        }
        ExchangeStep::Save(_) => panic!("nothing to save"),
    }
}

#[test]
fn saved_tokens_end_the_login_well() {
    match after_save(Ok(()), PAGE) {
        HandledRequest::ResponseAndExit { headers, body, result } => {
            assert!(headers.is_empty());
            assert_eq!(body, PAGE);
            assert_eq!(result, Ok(()));
        }
        other => panic!("unexpected answer {:?}", other),
    }
    assert_eq!(
        text_answer(after_save(Err(LoginError::other("disk full")), PAGE)),
        (500, "Unable to persist auth file: disk full".to_string())
    );
}

#[test]
fn record_of_a_login() {
    let now = Timestamp { seconds: 1_700_000_000, nanoseconds: 5 };
    let identity: Result<u8, String> = Ok(9);
    let record = auth_record(
        Some("key".to_string()),
        identity,
        "access".to_string(),
        "refresh".to_string(),
        now,
    )
    .unwrap_or_else(|error| panic!("{:?}", error));
    assert_eq!(record.openai_api_key, Some("key".to_string()));
    assert_eq!(record.last_refresh, Some(now));
    let kept = record.tokens.unwrap();
    assert_eq!(kept.id_token, 9);
    assert_eq!(kept.access_token, "access");
    assert_eq!(kept.refresh_token, "refresh");
    assert_eq!(kept.account_id, None);
    let unreadable: Result<u8, String> = Err("bad jwt".to_string());
    match auth_record(None, unreadable, String::new(), String::new(), now) {
        Err(error) => assert_eq!(error.message, "bad jwt"),
        Ok(_) => panic!("no record"),
    }
}

#[test]
fn record_is_dated_by_the_clock() {
    let before = chrono::Utc::now().timestamp();
    let record = auth_record_now(None, Ok::<u8, String>(1), String::new(), String::new())
        .unwrap_or_else(|error| panic!("{:?}", error));
    let after = chrono::Utc::now().timestamp();
    let dated = record.last_refresh.unwrap();
    assert!(before <= dated.seconds && dated.seconds <= after);
    assert!(dated.nanoseconds < 2_000_000_000);
}

#[test]
fn unreadable_identity_leaves_no_record() {
    let record = auth_record_now(
        Some("key".to_string()),
        Err::<u8, String>("bad token".to_string()),
        "access".to_string(),
        "refresh".to_string(),
    );
    match record {
        Err(error) => assert_eq!(error, LoginError::other("bad token")),
        Ok(_) => panic!("a record was made"),
    }
}

#[test]
fn tasks_that_do_not_finish_are_errors() {
    assert_eq!(persist_outcome(Ok(Ok(()))), Ok(()));
    let inner = LoginError::other("inner");
    assert_eq!(persist_outcome(Ok(Err(inner.clone()))), Err(inner.clone()));
    assert_eq!(
        persist_outcome(Err("gone".to_string())),
        Err(LoginError::other("persist task failed: gone"))
    );
    assert_eq!(join_outcome(Ok(Err(inner.clone()))), Err(inner));
    assert_eq!(
        join_outcome(Err("gone".to_string())),
        Err(LoginError::other("login server thread panicked: gone"))
    );
}

#[test]
fn stopped_login_is_not_completed() {
    for event in [ServerEvent::Shutdown, ServerEvent::RequestsClosed] {
        let step = on_event(event);
        assert!(step.reply.is_none());
        assert_eq!(
            step.result,
            Some(Err(LoginError::other("Login was not completed")))
        );
    }
}

#[test]
fn answers_decide_whether_the_login_goes_on() {
    let step = on_event(ServerEvent::Handled(done("/nope")));
    assert!(step.result.is_none());
    match step.reply {
        Some(Reply::Text { status, text }) => {
            assert_eq!((status, text.as_str()), (404, "Not Found"))
        }
        other => panic!("unexpected reply {:?}", other),
    }

    let location = Header::from_bytes(b"Location", b"/success")
        .unwrap_or_else(|_| panic!("an ASCII header"));
    let step = on_event(ServerEvent::Handled(HandledRequest::RedirectWithHeader(location)));
    assert!(step.result.is_none());
    match step.reply {
        Some(Reply::Empty { code, header }) => {
            assert_eq!(code, 302);
            assert_eq!(header.field(), "Location");
            assert_eq!(header.value(), "/success");
        }
        other => panic!("unexpected reply {:?}", other),
    }

    let step = on_event(ServerEvent::Handled(done("/cancel")));
    assert_eq!(
        step.result,
        Some(Err(LoginError::new(ErrorKind::Interrupted, "Login cancelled")))
    );
    match step.reply {
        Some(Reply::Raw(bytes)) => assert_eq!(
            String::from_utf8(bytes).unwrap(),
            "HTTP/1.1 200 OK\r\nConnection: close\r\nContent-Length: 15\r\n\r\nLogin cancelled"
        ),
        other => panic!("unexpected reply {:?}", other),
    }
}
