//! Credentials of a ShengSuanYun account, and the auth storage that holds them.
use std::path::Path;
use vstd::prelude::*;

verus! {

broadcast use vstd::string::group_string_axioms;

/// `std::path::Path`, which is handed on as it is.
#[verifier::external_type_specification]
#[verifier::external_body]
pub struct ExPath(Path);

/// ShengSuanYun auth credentials persisted in auth storage.
#[derive(Clone)]
pub struct ShengSuanYunAuth {
    pub api_key: String,
    pub jwt_token: Option<String>,
}

/// What the credentials are.
pub struct ShengSuanYunAuthView {
    pub api_key: Seq<char>,
    pub jwt_token: Option<Seq<char>>,
}

/// What an optional text is.
pub open spec fn text_view(text: Option<String>) -> Option<Seq<char>> {
    match text {
        Some(t) => Some(t@),
        None => None,
    }
}

impl View for ShengSuanYunAuth {
    type V = ShengSuanYunAuthView;

    open spec fn view(&self) -> ShengSuanYunAuthView {
        ShengSuanYunAuthView { api_key: self.api_key@, jwt_token: text_view(self.jwt_token) }
    }
}

impl PartialEq for ShengSuanYunAuth {
    fn eq(&self, other: &Self) -> (same: bool) {
        self.api_key == other.api_key && match (&self.jwt_token, &other.jwt_token) {
            (Some(a), Some(b)) => *a == *b,
            (None, None) => true,
            _ => false,
        }
    }
}

impl vstd::std_specs::cmp::PartialEqSpecImpl for ShengSuanYunAuth {
    open spec fn obeys_eq_spec() -> bool {
        true
    }

    open spec fn eq_spec(&self, other: &Self) -> bool {
        self@ == other@
    }
}

impl Eq for ShengSuanYunAuth {

}

/// How credentials are shown for debugging on one line: the secrets are left out.
pub open spec fn redacted(auth: ShengSuanYunAuthView) -> Seq<char> {
    if auth.jwt_token is Some {
        "ShengSuanYunAuth { api_key: \"<redacted>\", jwt_token: Some(\"<redacted>\") }"@
    } else {
        "ShengSuanYunAuth { api_key: \"<redacted>\", jwt_token: None }"@
    }
}

/// How credentials are shown for debugging on several lines: the secrets are left out.
pub open spec fn pretty_redacted(auth: ShengSuanYunAuthView) -> Seq<char> {
    if auth.jwt_token is Some {
        "ShengSuanYunAuth {\n    api_key: \"<redacted>\",\n    jwt_token: Some(\n        \"<redacted>\",\n    ),\n}"@
    } else {
        "ShengSuanYunAuth {\n    api_key: \"<redacted>\",\n    jwt_token: None,\n}"@
    }
}

impl ShengSuanYunAuth {
    /// The text to show for debugging. It tells whether there is a JWT, and no secret.
    pub fn debug_text(&self) -> (text: String)
        ensures
            text@ == redacted(self@),
            self.jwt_token is Some ==> text@
                == "ShengSuanYunAuth { api_key: \"<redacted>\", jwt_token: Some(\"<redacted>\") }"@,
            self.jwt_token is None ==> text@
                == "ShengSuanYunAuth { api_key: \"<redacted>\", jwt_token: None }"@,
    {
        if self.jwt_token.is_some() {
            "ShengSuanYunAuth { api_key: \"<redacted>\", jwt_token: Some(\"<redacted>\") }".to_owned()
        } else {
            "ShengSuanYunAuth { api_key: \"<redacted>\", jwt_token: None }".to_owned()
        }
    }

    /// The text to show for debugging on several lines, with an indent of four spaces. It tells
    /// whether there is a JWT, and no secret.
    pub fn pretty_debug_text(&self) -> (text: String)
        ensures
            text@ == pretty_redacted(self@),
            self.jwt_token is Some ==> text@
                == "ShengSuanYunAuth {\n    api_key: \"<redacted>\",\n    jwt_token: Some(\n        \"<redacted>\",\n    ),\n}"@,
            self.jwt_token is None ==> text@
                == "ShengSuanYunAuth {\n    api_key: \"<redacted>\",\n    jwt_token: None,\n}"@,
    {
        if self.jwt_token.is_some() {
            "ShengSuanYunAuth {\n    api_key: \"<redacted>\",\n    jwt_token: Some(\n        \"<redacted>\",\n    ),\n}".to_owned()
        } else {
            "ShengSuanYunAuth {\n    api_key: \"<redacted>\",\n    jwt_token: None,\n}".to_owned()
        }
    }
}

/// Debug text does not depend on the secrets, on one line or on several: credentials that differ
/// only in their secrets are shown alike.
pub proof fn debug_text_reveals_no_secret(a: ShengSuanYunAuthView, b: ShengSuanYunAuthView)
    requires
        a.jwt_token is Some <==> b.jwt_token is Some,
    ensures
        redacted(a) == redacted(b),
        pretty_redacted(a) == pretty_redacted(b),
{
}

/// Credentials are equal if and only if both their parts are.
pub proof fn equal_credentials_agree_in_both_parts(a: ShengSuanYunAuth, b: ShengSuanYunAuth)
    ensures
        vstd::std_specs::cmp::PartialEqSpec::eq_spec(&a, &b) <==> {
            &&& a.api_key@ == b.api_key@
            &&& a.jwt_token is Some <==> b.jwt_token is Some
            &&& a.jwt_token is Some && b.jwt_token is Some ==> a.jwt_token->0@ == b.jwt_token->0@
        },
{
}

/// The way in which a user is logged in.
#[derive(Debug, Clone, Copy, PartialEq, Eq, Structural)]
pub enum AuthMode {
    ApiKey,
    Chatgpt,
    Headers,
    AgentIdentity,
    BedrockApiKey,
    BedrockAccessKeys,
    ShengSuanYunAccessKeys,
}

/// The contents of auth storage: a mode, and one place for each kind of credentials. Kinds that
/// this library never fills in are held as text.
#[derive(Clone)]
pub struct AuthDotJson {
    pub auth_mode: Option<AuthMode>,
    pub openai_api_key: Option<String>,
    pub tokens: Option<String>,
    pub last_refresh: Option<String>,
    pub agent_identity: Option<String>,
    pub personal_access_token: Option<String>,
    pub bedrock_access_keys: Option<String>,
    pub bedrock_api_key: Option<String>,
    pub shengsuanyun_access_keys: Option<ShengSuanYunAuth>,
}

impl AuthDotJson {
    /// Says that the storage holds no credentials but these of a ShengSuanYun account.
    pub open spec fn holds_only(self, auth: ShengSuanYunAuthView) -> bool {
        &&& self.auth_mode == Some(AuthMode::ShengSuanYunAccessKeys)
        &&& self.openai_api_key is None
        &&& self.tokens is None
        &&& self.last_refresh is None
        &&& self.agent_identity is None
        &&& self.personal_access_token is None
        &&& self.bedrock_access_keys is None
        &&& self.bedrock_api_key is None
        &&& self.shengsuanyun_access_keys matches Some(a) && a@ == auth
    }
}

/// What has to be saved, where, and how. `S` is the way in which credentials are stored and `K`
/// the kind of keyring; both are handed on as they are.
pub struct SaveAuth<'a, S, K> {
    pub codex_home: &'a Path,
    pub auth: AuthDotJson,
    pub store_mode: S,
    pub keyring_backend_kind: K,
}

/// The auth storage to write when a user logs in with ShengSuanYun: it contains only ShengSuanYun
/// auth.
pub fn login_with_shengsuanyun<'a, S, K>(
    codex_home: &'a Path,
    api_key: &str,
    jwt_token: Option<&str>,
    auth_credentials_store_mode: S,
    keyring_backend_kind: K,
) -> (save: SaveAuth<'a, S, K>)
    ensures
        save.codex_home == codex_home,
        save.store_mode == auth_credentials_store_mode,
        save.keyring_backend_kind == keyring_backend_kind,
        save.auth.holds_only(
            (ShengSuanYunAuthView {
                api_key: api_key@,
                jwt_token: match jwt_token {
                    Some(t) => Some(t@),
                    None => None,
                },
            }),
        ),
        save.auth.auth_mode == Some(AuthMode::ShengSuanYunAccessKeys),
        save.auth.openai_api_key is None,
        save.auth.tokens is None,
        save.auth.last_refresh is None,
        save.auth.agent_identity is None,
        save.auth.personal_access_token is None,
        save.auth.bedrock_access_keys is None,
        save.auth.bedrock_api_key is None,
        save.auth.shengsuanyun_access_keys matches Some(keys) && keys.api_key@ == api_key@ && (
        match jwt_token {
            Some(given) => keys.jwt_token matches Some(kept) && kept@ == given@,
            None => keys.jwt_token is None,
        }),
{
    let jwt: Option<String> = match jwt_token {
        Some(t) => Some(t.to_owned()),
        None => None,
    };
    SaveAuth {
        codex_home,
        auth: AuthDotJson {
            auth_mode: Some(AuthMode::ShengSuanYunAccessKeys),
            openai_api_key: None,
            tokens: None,
            last_refresh: None,
            agent_identity: None,
            personal_access_token: None,
            bedrock_access_keys: None,
            bedrock_api_key: None,
            shengsuanyun_access_keys: Some(
                ShengSuanYunAuth { api_key: api_key.to_owned(), jwt_token: jwt },
            ),
        },
        store_mode: auth_credentials_store_mode,
        keyring_backend_kind,
    }
}

} // verus!
