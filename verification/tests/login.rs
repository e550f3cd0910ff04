use std::path::{Path, PathBuf};

use shengsuanyun::account::StatusAccountDisplay;
use shengsuanyun::auth::{login_with_shengsuanyun, AuthMode, ShengSuanYunAuth};
use shengsuanyun::authorize::{build_authorize_url, build_redirect_uri, start_login};
use shengsuanyun::error::{ErrorKind, LoginError};
use shengsuanyun::options::ServerOptions;
use shengsuanyun::text::{decimal_text, right_align, same_text, signed_decimal_text};

fn options() -> ServerOptions<u8> {
    ServerOptions::new(
        PathBuf::from("/home/user/.codex"),
        "codex-ssy".to_string(),
        Some("workspace".to_string()),
        7,
    )
}

#[test]
fn options_have_the_default_issuer_and_port() {
    let options = options();
    assert_eq!(options.codex_home, PathBuf::from("/home/user/.codex"));
    assert_eq!(options.client_id, "codex-ssy");
    assert_eq!(options.issuer, "https://router.shengsuanyun.com/auth");
    assert_eq!(options.port, 1455);
    assert!(options.open_browser);
    assert_eq!(options.force_state, None);
    assert_eq!(options.forced_chatgpt_workspace_id, Some("workspace".to_string()));
    assert_eq!(options.cli_auth_credentials_store_mode, 7);
    let copy = options.clone();
    assert_eq!(copy.codex_home, options.codex_home);
    assert_eq!(copy.issuer, options.issuer);
}

#[test]
fn authorize_url_is_percent_encoded() {
    assert_eq!(
        build_authorize_url(
            "https://router.shengsuanyun.com/auth",
            "codex-ssy",
            "http://localhost:1455/auth",
        ),
        "https://router.shengsuanyun.com/auth?from=codex-ssy&callback_url=http%3A%2F%2Flocalhost%3A1455%2Fauth"
    );
    assert_eq!(
        build_authorize_url("i", "a b&c=\u{e9}~", ""),
        "i?from=a%20b%26c%3D%C3%A9~&callback_url="
    );
}

#[test]
fn authorize_query_is_read_back_by_a_url_parser() {
    let url = build_authorize_url("https://example.com/auth", "a&b=c d%\u{4e2d}", "http://x/?y#z");
    let parsed = url::Url::parse(&url).unwrap();
    let pairs: Vec<(String, String)> = parsed.query_pairs().into_owned().collect();
    assert_eq!(
        pairs,
        vec![
            ("from".to_string(), "a&b=c d%\u{4e2d}".to_string()),
            ("callback_url".to_string(), "http://x/?y#z".to_string()),
        ]
    );
}

#[test]
fn login_starts_on_the_bound_port() {
    let start = start_login(&options(), Some(40123)).unwrap();
    assert_eq!(start.actual_port, 40123);
    assert_eq!(start.redirect_uri, "http://localhost:40123/auth/callback");
    assert_eq!(
        start.auth_url,
        "https://router.shengsuanyun.com/auth?from=codex-ssy&callback_url=http%3A%2F%2Flocalhost%3A40123%2Fauth%2Fcallback"
    );
    assert!(start.open_browser);
    assert_eq!(build_redirect_uri(0), "http://localhost:0/auth/callback");
}

#[test]
fn login_needs_a_known_port() {
    assert_eq!(
        start_login(&options(), None).unwrap_err(),
        LoginError {
            kind: ErrorKind::AddrInUse,
            message: "Unable to determine the server port".to_string(),
        }
    );
}

#[test]
fn auth_storage_holds_only_shengsuanyun_auth() {
    let home = Path::new("/tmp/home");
    let save = login_with_shengsuanyun(home, "key", Some("jwt"), 'f', "keyring");
    assert_eq!(save.codex_home, home);
    assert_eq!(save.store_mode, 'f');
    assert_eq!(save.keyring_backend_kind, "keyring");
    let auth = save.auth;
    assert_eq!(auth.auth_mode, Some(AuthMode::ShengSuanYunAccessKeys));
    assert!(auth.openai_api_key.is_none());
    assert!(auth.tokens.is_none());
    assert!(auth.last_refresh.is_none());
    assert!(auth.agent_identity.is_none());
    assert!(auth.personal_access_token.is_none());
    assert!(auth.bedrock_access_keys.is_none());
    assert!(auth.bedrock_api_key.is_none());
    let keys = auth.shengsuanyun_access_keys.unwrap();
    assert_eq!(keys.api_key, "key");
    assert_eq!(keys.jwt_token, Some("jwt".to_string()));
    let without = login_with_shengsuanyun(home, "key", None, 'f', "keyring");
    assert_eq!(without.auth.shengsuanyun_access_keys.unwrap().jwt_token, None);
}

fn auth(api_key: &str, jwt_token: Option<&str>) -> ShengSuanYunAuth {
    ShengSuanYunAuth {
        api_key: api_key.to_string(),
        jwt_token: jwt_token.map(str::to_string),
    }
}

#[test]
fn debug_text_is_redacted() {
    assert_eq!(
        auth("secret", Some("token")).debug_text(),
        "ShengSuanYunAuth { api_key: \"<redacted>\", jwt_token: Some(\"<redacted>\") }"
    );
    assert_eq!(
        auth("other", None).debug_text(),
        "ShengSuanYunAuth { api_key: \"<redacted>\", jwt_token: None }"
    );
    assert_eq!(auth("a", Some("b")).debug_text(), auth("c", Some("d")).debug_text());
}

#[test]
fn pretty_debug_text_is_redacted() {
    assert_eq!(
        auth("secret", Some("token")).pretty_debug_text(),
        "ShengSuanYunAuth {\n    api_key: \"<redacted>\",\n    jwt_token: Some(\n        \"<redacted>\",\n    ),\n}"
    );
    assert_eq!(
        auth("other", None).pretty_debug_text(),
        "ShengSuanYunAuth {\n    api_key: \"<redacted>\",\n    jwt_token: None,\n}"
    );
    assert_eq!(
        auth("a", Some("b")).pretty_debug_text(),
        auth("c", Some("d")).pretty_debug_text()
    );
}

#[test]
fn debug_texts_are_laid_out_as_by_std() {
    #[allow(dead_code)]
    #[derive(Debug)]
    struct ShengSuanYunAuth {
        api_key: &'static str,
        jwt_token: Option<&'static str>,
    }
    let with = ShengSuanYunAuth { api_key: "<redacted>", jwt_token: Some("<redacted>") };
    assert_eq!(auth("a", Some("b")).debug_text(), format!("{:?}", with));
    assert_eq!(auth("a", Some("b")).pretty_debug_text(), format!("{:#?}", with));
    let without = ShengSuanYunAuth { api_key: "<redacted>", jwt_token: None };
    assert_eq!(auth("a", None).debug_text(), format!("{:?}", without));
    assert_eq!(auth("a", None).pretty_debug_text(), format!("{:#?}", without));
}

#[test]
fn credentials_compare_by_their_parts() {
    assert!(auth("a", Some("b")) == auth("a", Some("b")));
    assert!(auth("a", None) == auth("a", None));
    assert!(auth("a", None) != auth("b", None));
    assert!(auth("a", Some("b")) != auth("a", None));
    assert!(auth("a", Some("b")) != auth("a", Some("c")));
}

#[test]
fn account_display_is_a_plain_value() {
    let account = StatusAccountDisplay::ShengSuanYun {
        name: Some("n".to_string()),
        plan: None,
    };
    assert_eq!(account.clone(), account);
    assert_ne!(account, StatusAccountDisplay::ApiKey);
}

#[test]
fn numbers_and_columns() {
    assert_eq!(decimal_text(0), "0");
    assert_eq!(decimal_text(u64::MAX), "18446744073709551615");
    assert_eq!(signed_decimal_text(i64::MIN), "-9223372036854775808");
    assert_eq!(signed_decimal_text(-10), "-10");
    assert_eq!(right_align("\u{4e2d}", 3), "  \u{4e2d}");
    assert_eq!(right_align("long", 3), "long");
    assert!(same_text("a", "a"));
    assert!(!same_text("a", "A"));
}
