//! Options of a login.
use std::path::PathBuf;
use vstd::prelude::*;

verus! {

/// `std::path::PathBuf`, which is handed on as it is.
#[verifier::external_type_specification]
#[verifier::external_body]
pub struct ExPathBuf(PathBuf);

/// `PathBuf::clone` of std.
///
/// Trusted of it: the copy is the same path.
pub assume_specification[ <PathBuf as Clone>::clone ](path: &PathBuf) -> (copy: PathBuf)
    ensures
        copy == *path,
;

/// What a login server is started with. `S` is the way in which credentials are stored; it is
/// handed on as it is.
#[derive(Debug)]
pub struct ServerOptions<S> {
    pub codex_home: PathBuf,
    pub client_id: String,
    pub issuer: String,
    pub port: u16,
    pub open_browser: bool,
    pub force_state: Option<String>,
    pub forced_chatgpt_workspace_id: Option<String>,
    pub cli_auth_credentials_store_mode: S,
}

/// Where the login page is.
pub const DEFAULT_ISSUER: &'static str = "https://router.shengsuanyun.com/auth";

/// The port on which the browser calls back.
pub const DEFAULT_PORT: u16 = 1455;

impl<S> ServerOptions<S> {
    /// Options with the default issuer and port, which open the browser.
    pub fn new(
        codex_home: PathBuf,
        client_id: String,
        forced_chatgpt_workspace_id: Option<String>,
        cli_auth_credentials_store_mode: S,
    ) -> (options: Self)
        ensures
            options.codex_home == codex_home,
            options.client_id == client_id,
            options.issuer@ == DEFAULT_ISSUER@,
            options.issuer@ == "https://router.shengsuanyun.com/auth"@,
            options.port == DEFAULT_PORT,
            options.port == 1455,
            options.open_browser,
            options.force_state is None,
            options.forced_chatgpt_workspace_id == forced_chatgpt_workspace_id,
            options.cli_auth_credentials_store_mode == cli_auth_credentials_store_mode,
    {
        ServerOptions {
            codex_home,
            client_id,
            issuer: DEFAULT_ISSUER.to_owned(),
            port: DEFAULT_PORT,
            open_browser: true,
            force_state: None,
            forced_chatgpt_workspace_id,
            cli_auth_credentials_store_mode,
        }
    }
}

impl<S: Clone> Clone for ServerOptions<S> {
    fn clone(&self) -> (copy: Self)
        ensures
            copy.codex_home == self.codex_home,
            copy.client_id == self.client_id,
            copy.issuer == self.issuer,
            copy.port == self.port,
            copy.open_browser == self.open_browser,
            copy.force_state == self.force_state,
            copy.forced_chatgpt_workspace_id == self.forced_chatgpt_workspace_id,
            cloned(self.cli_auth_credentials_store_mode, copy.cli_auth_credentials_store_mode),
    {
        ServerOptions {
            codex_home: self.codex_home.clone(),
            client_id: self.client_id.clone(),
            issuer: self.issuer.clone(),
            port: self.port,
            open_browser: self.open_browser,
            force_state: self.force_state.clone(),
            forced_chatgpt_workspace_id: self.forced_chatgpt_workspace_id.clone(),
            cli_auth_credentials_store_mode: self.cli_auth_credentials_store_mode.clone(),
        }
    }
}

} // verus!
