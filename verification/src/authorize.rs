//! Where the browser is sent, and where it comes back.
use vstd::prelude::*;
use vstd::utf8::encode_utf8;

use crate::error::{ErrorKind, LoginError};
#[allow(unused_imports)]
use crate::error::LoginErrorView;
use crate::options::ServerOptions;
use crate::percent::encode_component;
#[allow(unused_imports)]
use crate::percent::{
    percent_decoded, percent_encoding_is_injective, percent_encoding_is_undone_by_decoding,
    query_value, unreserved_text_stands_for_itself,
};
#[allow(unused_imports)]
use crate::query::{query_parts, written_pairs, written_query, written_query_is_read_back};
#[allow(unused_imports)]
use crate::request::CALLBACK_PATH;
#[allow(unused_imports)]
use crate::text::decimal;
use crate::text::decimal_text;

verus! {

broadcast use vstd::string::group_string_axioms;

/// The query of the login page: who asks, and where to call back.
pub open spec fn authorize_query(client_id: Seq<char>, redirect_uri: Seq<char>) -> Seq<char> {
    "from="@ + query_value(client_id) + "&callback_url="@ + query_value(redirect_uri)
}

/// The address of the login page.
pub open spec fn authorize_url(
    issuer: Seq<char>,
    client_id: Seq<char>,
    redirect_uri: Seq<char>,
) -> Seq<char> {
    issuer + "?"@ + authorize_query(client_id, redirect_uri)
}

/// The address at which the login server expects the browser.
pub open spec fn callback_uri(port: u16) -> Seq<char> {
    "http://localhost:"@ + decimal(port as nat) + "/auth/callback"@
}

/// Builds the address of the login page.
pub fn build_authorize_url(issuer: &str, client_id: &str, redirect_uri: &str) -> (url: String)
    ensures
        url@ == authorize_url(issuer@, client_id@, redirect_uri@),
        url@ == issuer@ + "?from="@ + query_value(client_id@) + "&callback_url="@ + query_value(
            redirect_uri@,
        ),
{
    let mut url: String = issuer.to_owned();
    url.append("?");
    url.append("from=");
    url.append(encode_component(client_id).as_str());
    url.append("&callback_url=");
    url.append(encode_component(redirect_uri).as_str());
    assert(url@ =~= authorize_url(issuer@, client_id@, redirect_uri@));
    proof {
        authorize_url_is_issuer_and_parameters(issuer@, client_id@, redirect_uri@);
    }
    url
}

/// Builds the address at which the login server expects the browser.
pub fn build_redirect_uri(port: u16) -> (uri: String)
    ensures
        uri@ == callback_uri(port),
        uri@ == "http://localhost:"@ + decimal(port as nat) + "/auth/callback"@,
{
    let mut uri: String = "http://localhost:".to_owned();
    uri.append(decimal_text(port as u64).as_str());
    uri.append("/auth/callback");
    uri
}

/// What a login server does once its port is bound.
#[derive(Debug)]
pub struct LoginStart {
    pub auth_url: String,
    pub actual_port: u16,
    pub redirect_uri: String,
    pub open_browser: bool,
}

/// Settles how a login starts on the port that was bound. It fails where the port is not known.
pub fn start_login<S>(options: &ServerOptions<S>, bound_port: Option<u16>) -> (start: Result<
    LoginStart,
    LoginError,
>)
    ensures
        match bound_port {
            Some(port) => {
                &&& start matches Ok(s)
                &&& s.actual_port == port
                &&& s.redirect_uri@ == callback_uri(port)
                &&& s.auth_url@ == authorize_url(
                    options.issuer@,
                    options.client_id@,
                    callback_uri(port),
                )
                &&& s.open_browser == options.open_browser
                &&& s.redirect_uri@ == "http://localhost:"@ + decimal(port as nat)
                    + "/auth/callback"@
                &&& s.auth_url@ == options.issuer@ + "?from="@ + query_value(options.client_id@)
                    + "&callback_url="@ + query_value(s.redirect_uri@)
            },
            None => {
                &&& start matches Err(e)
                &&& e@ == (LoginErrorView {
                    kind: ErrorKind::AddrInUse,
                    message: "Unable to determine the server port"@,
                })
            },
        },
{
    match bound_port {
        Some(port) => {
            let redirect_uri: String = build_redirect_uri(port);
            let auth_url: String = build_authorize_url(
                options.issuer.as_str(),
                options.client_id.as_str(),
                redirect_uri.as_str(),
            );
            Ok(
                LoginStart {
                    auth_url,
                    actual_port: port,
                    redirect_uri,
                    open_browser: options.open_browser,
                },
            )
        },
        None => Err(
            LoginError::new(ErrorKind::AddrInUse, "Unable to determine the server port"),
        ),
    }
}

/// The address of the login page is the issuer, and then the two parameters, each percent-encoded.
pub proof fn authorize_url_is_issuer_and_parameters(
    issuer: Seq<char>,
    client_id: Seq<char>,
    redirect_uri: Seq<char>,
)
    ensures
        authorize_url(issuer, client_id, redirect_uri) == issuer + "?from="@ + query_value(
            client_id,
        ) + "&callback_url="@ + query_value(redirect_uri),
{
    reveal_strlit("?");
    reveal_strlit("from=");
    reveal_strlit("?from=");
    assert(authorize_url(issuer, client_id, redirect_uri) =~= issuer + "?from="@ + query_value(
        client_id,
    ) + "&callback_url="@ + query_value(redirect_uri));
}

/// The query of the login page is read back as the two parameters that it was made of, whatever
/// characters they hold: it splits into exactly these two pairs, and decoding their values gives
/// the bytes of the client id and of the redirect address.
pub proof fn authorize_query_is_read_back(client_id: Seq<char>, redirect_uri: Seq<char>)
    ensures
        authorize_query(client_id, redirect_uri) == written_query(
            seq![("from"@, client_id), ("callback_url"@, redirect_uri)],
        ),
        query_parts(authorize_query(client_id, redirect_uri)) == seq![
            ("from"@, query_value(client_id)),
            ("callback_url"@, query_value(redirect_uri)),
        ],
        percent_decoded(query_value(client_id)) == encode_utf8(client_id),
        percent_decoded(query_value(redirect_uri)) == encode_utf8(redirect_uri),
{
    let pairs = seq![("from"@, client_id), ("callback_url"@, redirect_uri)];
    reveal_strlit("from=");
    reveal_strlit("&callback_url=");
    reveal_strlit("from");
    reveal_strlit("callback_url");
    unreserved_text_stands_for_itself("from"@);
    unreserved_text_stands_for_itself("callback_url"@);
    let second = "callback_url"@ + seq!['='] + query_value(redirect_uri);
    assert(pairs.skip(1) =~= seq![("callback_url"@, redirect_uri)]);
    assert(written_query(pairs.skip(1)) == second);
    assert(written_query(pairs) =~= "from"@ + seq!['='] + query_value(client_id) + seq!['&']
        + second);
    assert(authorize_query(client_id, redirect_uri) =~= written_query(pairs));
    written_query_is_read_back(pairs);
    assert(written_pairs(pairs) =~= seq![
        ("from"@, query_value(client_id)),
        ("callback_url"@, query_value(redirect_uri)),
    ]);
    percent_encoding_is_undone_by_decoding(encode_utf8(client_id));
    percent_encoding_is_undone_by_decoding(encode_utf8(redirect_uri));
}

/// The address at which the browser is expected has the path at which the login server takes a
/// code, on whatever port it listens.
pub proof fn callback_uri_has_the_callback_path(port: u16)
    ensures
        callback_uri(port) == "http://localhost:"@ + decimal(port as nat) + CALLBACK_PATH@,
{
}

/// One issuer's login addresses for different clients or different redirect addresses differ.
pub proof fn authorize_url_determines_its_parameters(
    issuer: Seq<char>,
    client_a: Seq<char>,
    redirect_a: Seq<char>,
    client_b: Seq<char>,
    redirect_b: Seq<char>,
)
    requires
        authorize_url(issuer, client_a, redirect_a) == authorize_url(
            issuer,
            client_b,
            redirect_b,
        ),
    ensures
        client_a == client_b,
        redirect_a == redirect_b,
{
    let query_a = authorize_query(client_a, redirect_a);
    let query_b = authorize_query(client_b, redirect_b);
    let start = issuer.len() + "?"@.len();
    assert(authorize_url(issuer, client_a, redirect_a).skip(start as int) =~= query_a);
    assert(authorize_url(issuer, client_b, redirect_b).skip(start as int) =~= query_b);
    authorize_query_is_read_back(client_a, redirect_a);
    authorize_query_is_read_back(client_b, redirect_b);
    let pairs = query_parts(query_a);
    assert(pairs[0].1 == query_value(client_a) && pairs[0].1 == query_value(client_b));
    assert(pairs[1].1 == query_value(redirect_a) && pairs[1].1 == query_value(redirect_b));
    percent_encoding_is_injective(client_a, client_b);
    percent_encoding_is_injective(redirect_a, redirect_b);
}

} // verus!
