//! What the login server answers to a request.
//!
//! A request is answered in up to three steps. `process_request` reads the request's address;
//! where it brings an authorization code, the code is exchanged, and `after_exchange` goes on with
//! what came of that; where tokens came, they are saved, and `after_save` ends the request.
use std::path::PathBuf;
use vstd::prelude::*;
use vstd::slice::slice_to_vec;
use vstd::utf8::encode_utf8;

use crate::error::{ErrorKind, LoginError};
#[allow(unused_imports)]
use crate::error::LoginErrorView;
use crate::message::Header;
#[allow(unused_imports)]
use crate::message::{all_ascii, ascii_text, ascii_text_of_its_bytes, header_views, HeaderView};
use crate::options::ServerOptions;
#[allow(unused_imports)]
use crate::percent::{query_value, unreserved_text_stands_for_itself};
#[allow(unused_imports)]
use crate::query::{query_parts, written_query};
use crate::text::{join2, same_text};
use crate::token::{build_token_request, ExchangedTokens, TokenRequest};
#[allow(unused_imports)]
use crate::token::{json_object, token_request, tokens_of, TokenReply, TokenRequestView};

verus! {

broadcast use vstd::string::group_string_axioms;

/// The path to which the login page sends the browser back.
pub const CALLBACK_PATH: &'static str = "/auth/callback";

/// The path that shows that the login is done.
pub const SUCCESS_PATH: &'static str = "/success";

/// The path that ends the login.
pub const CANCEL_PATH: &'static str = "/cancel";

/// An address: its path, and the names and values of its query.
#[derive(Debug)]
pub struct RequestUrl {
    pub path: String,
    pub query: Vec<(String, String)>,
}

/// What an address is.
pub struct RequestUrlView {
    pub path: Seq<char>,
    pub query: Seq<(Seq<char>, Seq<char>)>,
}

/// What a list of names and values is.
pub open spec fn pair_views(pairs: Seq<(String, String)>) -> Seq<(Seq<char>, Seq<char>)> {
    pairs.map_values(|p: (String, String)| (p.0@, p.1@))
}

impl View for RequestUrl {
    type V = RequestUrlView;

    open spec fn view(&self) -> RequestUrlView {
        RequestUrlView { path: self.path@, query: pair_views(self.query@) }
    }
}

/// An ASCII letter or digit.
pub open spec fn ascii_alphanumeric(c: char) -> bool {
    ||| 'a' <= c && c <= 'z'
    ||| 'A' <= c && c <= 'Z'
    ||| '0' <= c && c <= '9'
}

/// A path in which every character stands for itself: slashes, letters, digits, `-`, `_` and `~`.
/// It has at most two thousand million characters, since positions in an address are counted with
/// 32 bits.
pub open spec fn plain_path(path: Seq<char>) -> bool {
    &&& 0 < path.len() <= 2_000_000_000
    &&& path[0] == '/'
    &&& forall|i: int|
        0 <= i < path.len() ==> (ascii_alphanumeric(#[trigger] path[i]) || path[i] == '/'
            || path[i] == '-' || path[i] == '_' || path[i] == '~')
}

/// A query in which every character stands for itself: letters, digits, `-`, `_`, `.`, `~`, and
/// the marks `&` and `=`.
pub open spec fn plain_query(query: Seq<char>) -> bool {
    forall|i: int|
        0 <= i < query.len() ==> (ascii_alphanumeric(#[trigger] query[i]) || query[i] == '-'
            || query[i] == '_' || query[i] == '.' || query[i] == '~' || query[i] == '&'
            || query[i] == '=')
}

/// What the parse of an address gives: the address, or what is wrong with it.
pub open spec fn url_result(parsed: Result<RequestUrl, String>) -> Result<
    RequestUrlView,
    Seq<char>,
> {
    match parsed {
        Ok(url) => Ok(url@),
        Err(text) => Err(text@),
    }
}

/// An address that could be read.
pub open spec fn good_url(path: Seq<char>, query: Seq<(Seq<char>, Seq<char>)>) -> Result<
    RequestUrlView,
    Seq<char>,
> {
    Ok(RequestUrlView { path, query })
}

/// The address that the `url` crate reads a text as, or the text of its error.
pub uninterp spec fn parsed_url(text: Seq<char>) -> Result<RequestUrlView, Seq<char>>;

/// Parses an address with `url::Url::parse`, and takes the result apart with `Url::path` and
/// `Url::query_pairs`.
///
/// Trusted of them: the result is fixed by the text. On the host `localhost`, a plain path is kept
/// as it is, a plain query is read as its parts, and a query that was written with percent-encoding
/// is read as the names and values that were written. What other texts are read as is not stated.
#[verifier::external_body]
fn url_parse(text: &str) -> (parsed: Result<RequestUrl, String>)
    ensures
        url_result(parsed) == parsed_url(text@),
        forall|path: Seq<char>|
            #[trigger] plain_path(path) && text@ == "http://localhost"@ + path ==> url_result(
                parsed,
            ) == good_url(path, seq![]),
        forall|path: Seq<char>, query: Seq<char>|
            #[trigger] plain_path(path) && #[trigger] plain_query(query) && text@
                == "http://localhost"@ + path + "?"@ + query ==> url_result(parsed) == good_url(
                path,
                query_parts(query),
            ),
        forall|path: Seq<char>, pairs: Seq<(Seq<char>, Seq<char>)>|
            #[trigger] plain_path(path) && text@ == "http://localhost"@ + path + "?"@
                + #[trigger] written_query(pairs) ==> url_result(parsed) == good_url(path, pairs),
{
    match url::Url::parse(text) {
        Ok(url) => Ok(
            RequestUrl {
                path: url.path().to_string(),
                query: url.query_pairs().into_owned().collect(),
            },
        ),
        Err(error) => Err(error.to_string()),
    }
}

/// The whole address of a request target.
pub open spec fn target_url(url_raw: Seq<char>) -> Seq<char> {
    "http://localhost"@ + url_raw
}

/// Reads a request target.
pub fn read_target(url_raw: &str) -> (parsed: Result<RequestUrl, String>)
    ensures
        url_result(parsed) == parsed_url(target_url(url_raw@)),
        url_result(parsed) == parsed_url("http://localhost"@ + url_raw@),
        plain_path(url_raw@) ==> url_result(parsed) == good_url(url_raw@, seq![]),
        forall|path: Seq<char>, query: Seq<char>|
            #[trigger] plain_path(path) && #[trigger] plain_query(query) && url_raw@ == path
                + "?"@ + query ==> url_result(parsed) == good_url(path, query_parts(query)),
        forall|path: Seq<char>, pairs: Seq<(Seq<char>, Seq<char>)>|
            #[trigger] plain_path(path) && url_raw@ == path + "?"@
                + #[trigger] written_query(pairs) ==> url_result(parsed) == good_url(path, pairs),
{
    let text: String = join2("http://localhost", url_raw);
    proof {
        assert forall|path: Seq<char>, query: Seq<char>|
            #[trigger] plain_path(path) && #[trigger] plain_query(query) && url_raw@ == path
                + "?"@ + query implies text@ == "http://localhost"@ + path + "?"@ + query by {
            assert(text@ =~= "http://localhost"@ + path + "?"@ + query);
        }
        assert forall|path: Seq<char>, pairs: Seq<(Seq<char>, Seq<char>)>|
            #[trigger] plain_path(path) && url_raw@ == path + "?"@ + #[trigger] written_query(
                pairs,
            ) implies text@ == "http://localhost"@ + path + "?"@ + written_query(pairs) by {
            assert(text@ =~= "http://localhost"@ + path + "?"@ + written_query(pairs));
        }
    }
    url_parse(text.as_str())
}

/// The answer to a request.
#[derive(Debug)]
pub enum HandledRequest {
    /// Answer, and wait for the next request.
    Response { status: u16, text: String },
    /// Send the browser on, and wait for the next request.
    RedirectWithHeader(Header),
    /// Answer, close the connection, and end the login.
    ResponseAndExit { headers: Vec<Header>, body: Vec<u8>, result: Result<(), LoginError> },
}

/// What an answer is.
pub enum HandledView {
    Response { status: u16, text: Seq<char> },
    Redirect { header: HeaderView },
    Exit { headers: Seq<HeaderView>, body: Seq<u8>, result: Result<(), LoginErrorView> },
}

/// What the result of a login is.
pub open spec fn result_view(result: Result<(), LoginError>) -> Result<(), LoginErrorView> {
    match result {
        Ok(done) => Ok(done),
        Err(error) => Err(error@),
    }
}

impl View for HandledRequest {
    type V = HandledView;

    open spec fn view(&self) -> HandledView {
        match *self {
            HandledRequest::Response { status, text } => HandledView::Response {
                status,
                text: text@,
            },
            HandledRequest::RedirectWithHeader(header) => HandledView::Redirect {
                header: header@,
            },
            HandledRequest::ResponseAndExit { headers, body, result } => HandledView::Exit {
                headers: header_views(headers@),
                body: body@,
                result: result_view(result),
            },
        }
    }
}

/// The first step of a request: its answer, or a code to exchange.
pub enum RequestStep {
    Done(HandledRequest),
    Exchange(TokenRequest),
}

/// What the first step of a request is.
pub enum RequestStepView {
    Done(HandledView),
    Exchange(TokenRequestView),
}

impl View for RequestStep {
    type V = RequestStepView;

    open spec fn view(&self) -> RequestStepView {
        match *self {
            RequestStep::Done(handled) => RequestStepView::Done(handled@),
            RequestStep::Exchange(request) => RequestStepView::Exchange(request@),
        }
    }
}

/// The value of the last pair of the given name.
pub open spec fn last_value(pairs: Seq<(Seq<char>, Seq<char>)>, name: Seq<char>) -> Option<
    Seq<char>,
>
    decreases pairs.len(),
{
    if pairs.len() == 0 {
        None
    } else if pairs.last().0 == name {
        Some(pairs.last().1)
    } else {
        last_value(pairs.drop_last(), name)
    }
}

/// The value of a name is that of the last pair that has the name, wherever that pair stands and
/// whatever the other pairs are.
pub proof fn value_is_that_of_the_last_pair(
    pairs: Seq<(Seq<char>, Seq<char>)>,
    name: Seq<char>,
    k: int,
)
    requires
        0 <= k < pairs.len(),
        pairs[k].0 == name,
        forall|j: int| k < j < pairs.len() ==> (#[trigger] pairs[j]).0 != name,
    ensures
        last_value(pairs, name) == Some(pairs[k].1),
    decreases pairs.len(),
{
    if k < pairs.len() - 1 {
        assert(pairs[pairs.len() - 1].0 != name);
        value_is_that_of_the_last_pair(pairs.drop_last(), name, k);
    }
}

/// A name that no pair has is without a value.
pub proof fn no_value_without_a_pair(pairs: Seq<(Seq<char>, Seq<char>)>, name: Seq<char>)
    requires
        forall|j: int| 0 <= j < pairs.len() ==> (#[trigger] pairs[j]).0 != name,
    ensures
        last_value(pairs, name) is None,
    decreases pairs.len(),
{
    if pairs.len() > 0 {
        assert(pairs[pairs.len() - 1].0 != name);
        no_value_without_a_pair(pairs.drop_last(), name);
    }
}

/// An answer with a status and a text.
pub open spec fn plain_answer(status: u16, text: Seq<char>) -> HandledView {
    HandledView::Response { status, text }
}

/// The answer that shows the success page with its content type.
pub open spec fn success_answer(success_page: Seq<u8>) -> HandledView {
    HandledView::Exit {
        headers: seq![
            HeaderView { field: "Content-Type"@, value: "text/html; charset=utf-8"@ },
        ],
        body: success_page,
        result: Ok(()),
    }
}

/// The answer to a request that cancels the login.
pub open spec fn cancel_answer() -> HandledView {
    HandledView::Exit {
        headers: seq![],
        body: encode_utf8("Login cancelled"@),
        result: Err(
            LoginErrorView { kind: ErrorKind::Interrupted, message: "Login cancelled"@ },
        ),
    }
}

/// What is done first with a request, by what its target was read as.
pub open spec fn routed(
    target: Result<RequestUrlView, Seq<char>>,
    redirect_uri: Seq<char>,
    success_page: Seq<u8>,
) -> RequestStepView {
    match target {
        Err(_) => RequestStepView::Done(plain_answer(400, "Bad Request"@)),
        Ok(url) => if url.path == CALLBACK_PATH@ {
            match last_value(url.query, "code"@) {
                Some(code) => if code.len() > 0 {
                    RequestStepView::Exchange(token_request(redirect_uri, code))
                } else {
                    RequestStepView::Done(plain_answer(400, "Missing authorization code"@))
                },
                None => RequestStepView::Done(plain_answer(400, "Missing authorization code"@)),
            }
        } else if url.path == SUCCESS_PATH@ {
            RequestStepView::Done(success_answer(success_page))
        } else if url.path == CANCEL_PATH@ {
            RequestStepView::Done(cancel_answer())
        } else {
            RequestStepView::Done(plain_answer(404, "Not Found"@))
        },
    }
}

/// The value of the last pair of the given name.
fn find_last<'a>(pairs: &'a Vec<(String, String)>, name: &str) -> (value: Option<&'a String>)
    ensures
        match value {
            Some(v) => last_value(pair_views(pairs@), name@) == Some(v@),
            None => last_value(pair_views(pairs@), name@) is None,
        },
{
    let ghost all = pair_views(pairs@);
    let mut i: usize = pairs.len();
    proof {
        assert(all.take(i as int) =~= all);
    }
    while i > 0
        invariant
            i <= pairs.len(),
            all == pair_views(pairs@),
            last_value(all, name@) == last_value(all.take(i as int), name@),
        decreases i,
    {
        i = i - 1;
        proof {
            assert(all.take(i + 1).drop_last() =~= all.take(i as int));
            assert(all.take(i + 1).last() == all[i as int]);
        }
        if same_text(pairs[i].0.as_str(), name) {
            return Some(&pairs[i].1);
        }
    }
    None
}

fn answer(status: u16, text: &str) -> (handled: HandledRequest)
    ensures
        handled@ == plain_answer(status, text@),
{
    HandledRequest::Response { status, text: text.to_owned() }
}

fn single_header(field: &str, value: &str) -> (headers: Vec<Header>)
    requires
        vstd::utf8::is_ascii_chars(field@),
        vstd::utf8::is_ascii_chars(value@),
    ensures
        header_views(headers@) == seq![HeaderView { field: field@, value: value@ }],
        headers@.len() == 1,
        headers@[0]@.field == field@,
        headers@[0]@.value == value@,
{
    proof {
        ascii_text_of_its_bytes(field@);
        ascii_text_of_its_bytes(value@);
    }
    let mut headers: Vec<Header> = Vec::new();
    match Header::from_bytes(field.as_bytes(), value.as_bytes()) {
        Ok(header) => {
            headers.push(header);
        },
        Err(_) => {},
    }
    assert(header_views(headers@) =~= seq![HeaderView { field: field@, value: value@ }]);
    headers
}

proof fn code_of_a_query(query: Seq<(String, String)>)
    ensures
        (forall|j: int| 0 <= j < query.len() ==> (#[trigger] query[j]).0@ != "code"@)
            ==> last_value(pair_views(query), "code"@) is None,
        forall|k: int|
            0 <= k < query.len() && (#[trigger] query[k]).0@ == "code"@ && (forall|j: int|
                k < j < query.len() ==> (#[trigger] query[j]).0@ != "code"@) ==> last_value(
                pair_views(query),
                "code"@,
            ) == Some(query[k].1@),
{
    let pairs = pair_views(query);
    if forall|j: int| 0 <= j < query.len() ==> (#[trigger] query[j]).0@ != "code"@ {
        assert forall|j: int| 0 <= j < pairs.len() implies (#[trigger] pairs[j]).0 != "code"@ by {
            assert(pairs[j].0 == query[j].0@);
        }
        no_value_without_a_pair(pairs, "code"@);
    }
    assert forall|k: int|
        0 <= k < query.len() && (#[trigger] query[k]).0@ == "code"@ && (forall|j: int|
            k < j < query.len() ==> (#[trigger] query[j]).0@ != "code"@) implies last_value(
        pairs,
        "code"@,
    ) == Some(query[k].1@) by {
        assert forall|j: int| k < j < pairs.len() implies (#[trigger] pairs[j]).0 != "code"@ by {
            assert(pairs[j].0 == query[j].0@);
        }
        value_is_that_of_the_last_pair(pairs, "code"@, k);
    }
}

/// Settles what is done first with a request whose target was read.
pub fn route_request(
    target: &Result<RequestUrl, String>,
    redirect_uri: &str,
    success_page: &[u8],
) -> (step: RequestStep)
    ensures
        step@ == routed(url_result(*target), redirect_uri@, success_page@),
        match *target {
            Err(_) => {
                &&& step matches RequestStep::Done(handled)
                &&& handled matches HandledRequest::Response { status, text }
                &&& status == 400
                &&& text@ == "Bad Request"@
            },
            Ok(url) => {
                &&& url.path@ == "/auth/callback"@ ==> {
                    &&& (forall|j: int|
                        0 <= j < url.query@.len() ==> (#[trigger] url.query@[j]).0@ != "code"@)
                        ==> (step matches RequestStep::Done(handled) && handled
                        matches HandledRequest::Response { status, text } && status == 400 && text@
                        == "Missing authorization code"@)
                    &&& forall|k: int|
                        0 <= k < url.query@.len() && (#[trigger] url.query@[k]).0@ == "code"@ && (
                        forall|j: int|
                            k < j < url.query@.len() ==> (#[trigger] url.query@[j]).0@ != "code"@)
                            ==> if url.query@[k].1@.len() == 0 {
                            step matches RequestStep::Done(handled) && handled
                            matches HandledRequest::Response { status, text } && status == 400 && text@
                            == "Missing authorization code"@
                        } else {
                            &&& step matches RequestStep::Exchange(request)
                            &&& request.url@ == "https://api.shengsuanyun.com/auth/keys"@
                            &&& request.content_type@ == "application/json"@
                            &&& request.body@ == json_object(
                                "code"@,
                                url.query@[k].1@,
                                "redirect_uri"@,
                                redirect_uri@,
                            )
                        }
                }
                &&& url.path@ == "/success"@ ==> {
                    &&& step matches RequestStep::Done(handled)
                    &&& handled matches HandledRequest::ResponseAndExit { headers, body, result }
                    &&& headers@.len() == 1
                    &&& headers@[0]@.field == "Content-Type"@
                    &&& headers@[0]@.value == "text/html; charset=utf-8"@
                    &&& body@ == success_page@
                    &&& result is Ok
                }
                &&& url.path@ == "/cancel"@ ==> {
                    &&& step matches RequestStep::Done(handled)
                    &&& handled matches HandledRequest::ResponseAndExit { headers, body, result }
                    &&& headers@.len() == 0
                    &&& body@ == encode_utf8("Login cancelled"@)
                    &&& result matches Err(error)
                    &&& error.kind == ErrorKind::Interrupted
                    &&& error.message@ == "Login cancelled"@
                }
                &&& url.path@ != "/auth/callback"@ && url.path@ != "/success"@ && url.path@
                    != "/cancel"@ ==> {
                    &&& step matches RequestStep::Done(handled)
                    &&& handled matches HandledRequest::Response { status, text }
                    &&& status == 404
                    &&& text@ == "Not Found"@
                }
            },
        },
{
    proof {
        known_paths_are_plain();
        if target is Ok {
            code_of_a_query(target->Ok_0.query@);
        }
    }
    let url: &RequestUrl = match target {
        Ok(url) => url,
        Err(_) => {
            return RequestStep::Done(answer(400, "Bad Request"));
        },
    };
    let path: &str = url.path.as_str();
    if same_text(path, CALLBACK_PATH) {
        match find_last(&url.query, "code") {
            Some(code) => {
                if code.as_str().is_empty() {
                    RequestStep::Done(answer(400, "Missing authorization code"))
                } else {
                    RequestStep::Exchange(build_token_request(redirect_uri, code.as_str()))
                }
            },
            None => RequestStep::Done(answer(400, "Missing authorization code")),
        }
    } else if same_text(path, SUCCESS_PATH) {
        proof {
            reveal_strlit("Content-Type");
            reveal_strlit("text/html; charset=utf-8");
        }
        RequestStep::Done(
            HandledRequest::ResponseAndExit {
                headers: single_header("Content-Type", "text/html; charset=utf-8"),
                body: slice_to_vec(success_page),
                result: Ok(()),
            },
        )
    } else if same_text(path, CANCEL_PATH) {
        let headers: Vec<Header> = Vec::new();
        assert(header_views(headers@) =~= seq![]);
        RequestStep::Done(
            HandledRequest::ResponseAndExit {
                headers,
                body: "Login cancelled".as_bytes_vec(),
                result: Err(LoginError::new(ErrorKind::Interrupted, "Login cancelled")),
            },
        )
    } else {
        RequestStep::Done(answer(404, "Not Found"))
    }
}

proof fn callback_with_code(code: Seq<char>, redirect_uri: Seq<char>, success_page: Seq<u8>)
    requires
        code.len() > 0,
    ensures
        CALLBACK_PATH@ + "?code="@ + query_value(code) == CALLBACK_PATH@ + "?"@ + written_query(
            seq![("code"@, code)],
        ),
        routed(
            good_url(CALLBACK_PATH@, seq![("code"@, code)]),
            redirect_uri,
            success_page,
        ) == RequestStepView::Exchange(token_request(redirect_uri, code)),
{
    reveal_strlit("?code=");
    reveal_strlit("code");
    reveal_strlit("?");
    unreserved_text_stands_for_itself("code"@);
    let pairs = seq![("code"@, code)];
    assert(written_query(pairs) == "code"@ + seq!['='] + query_value(code));
    assert(CALLBACK_PATH@ + "?code="@ + query_value(code) =~= CALLBACK_PATH@ + "?"@
        + written_query(pairs));
    assert(last_value(pairs, "code"@) == Some(code));
}

proof fn callback_is_answered_by_its_query(
    url_raw: Seq<char>,
    target: Result<RequestUrlView, Seq<char>>,
    redirect_uri: Seq<char>,
    success_page: Seq<u8>,
)
    requires
        forall|path: Seq<char>, pairs: Seq<(Seq<char>, Seq<char>)>|
            #[trigger] plain_path(path) && url_raw == path + "?"@ + #[trigger] written_query(pairs)
                ==> target == good_url(path, pairs),
    ensures
        forall|pairs: Seq<(Seq<char>, Seq<char>)>, k: int|
            #![trigger written_query(pairs), pairs[k]]
            url_raw == "/auth/callback?"@ + written_query(pairs) && 0 <= k < pairs.len()
                && pairs[k].0 == "code"@ && (forall|j: int|
                k < j < pairs.len() ==> (#[trigger] pairs[j]).0 != "code"@) ==> routed(
                target,
                redirect_uri,
                success_page,
            ) == if pairs[k].1.len() > 0 {
                RequestStepView::Exchange(token_request(redirect_uri, pairs[k].1))
            } else {
                RequestStepView::Done(plain_answer(400, "Missing authorization code"@))
            },
        forall|pairs: Seq<(Seq<char>, Seq<char>)>|
            url_raw == "/auth/callback?"@ + #[trigger] written_query(pairs) && (forall|j: int|
                0 <= j < pairs.len() ==> (#[trigger] pairs[j]).0 != "code"@) ==> routed(
                target,
                redirect_uri,
                success_page,
            ) == RequestStepView::Done(plain_answer(400, "Missing authorization code"@)),
{
    known_paths_are_plain();
    reveal_strlit("/auth/callback");
    reveal_strlit("?");
    reveal_strlit("/auth/callback?");
    assert("/auth/callback?"@ =~= CALLBACK_PATH@ + "?"@);
    assert forall|pairs: Seq<(Seq<char>, Seq<char>)>, k: int|
        #![trigger written_query(pairs), pairs[k]]
        url_raw == "/auth/callback?"@ + written_query(pairs) && 0 <= k < pairs.len() && pairs[k].0
            == "code"@ && (forall|j: int|
            k < j < pairs.len() ==> (#[trigger] pairs[j]).0 != "code"@) implies routed(
        target,
        redirect_uri,
        success_page,
    ) == if pairs[k].1.len() > 0 {
        RequestStepView::Exchange(token_request(redirect_uri, pairs[k].1))
    } else {
        RequestStepView::Done(plain_answer(400, "Missing authorization code"@))
    } by {
        value_is_that_of_the_last_pair(pairs, "code"@, k);
        assert(target == good_url(CALLBACK_PATH@, pairs));
    }
    assert forall|pairs: Seq<(Seq<char>, Seq<char>)>|
        url_raw == "/auth/callback?"@ + #[trigger] written_query(pairs) && (forall|j: int|
            0 <= j < pairs.len() ==> (#[trigger] pairs[j]).0 != "code"@) implies routed(
        target,
        redirect_uri,
        success_page,
    ) == RequestStepView::Done(plain_answer(400, "Missing authorization code"@)) by {
        no_value_without_a_pair(pairs, "code"@);
        assert(target == good_url(CALLBACK_PATH@, pairs));
    }
}

proof fn known_paths_are_plain()
    ensures
        plain_path(SUCCESS_PATH@),
        plain_path(CANCEL_PATH@),
        plain_path(CALLBACK_PATH@),
        SUCCESS_PATH@ != CANCEL_PATH@,
        SUCCESS_PATH@ != CALLBACK_PATH@,
        CANCEL_PATH@ != CALLBACK_PATH@,
{
    reveal_strlit("/success");
    reveal_strlit("/cancel");
    reveal_strlit("/auth/callback");
}

/// Settles what is done first with a request, from its target as it was sent.
///
/// A target that cannot be read is a bad request. The callback goes on with its last `code`, and
/// is a bad request without one. The success and cancel paths end the login, and any other path is
/// not found.
pub fn process_request(url_raw: &str, redirect_uri: &str, success_page: &[u8]) -> (step:
    RequestStep)
    ensures
        step@ == routed(parsed_url(target_url(url_raw@)), redirect_uri@, success_page@),
        step@ == routed(
            parsed_url("http://localhost"@ + url_raw@),
            redirect_uri@,
            success_page@,
        ),
        plain_path(url_raw@) ==> step@ == routed(
            good_url(url_raw@, seq![]),
            redirect_uri@,
            success_page@,
        ),
        forall|path: Seq<char>, query: Seq<char>|
            #[trigger] plain_path(path) && #[trigger] plain_query(query) && url_raw@ == path
                + "?"@ + query ==> step@ == routed(
                good_url(path, query_parts(query)),
                redirect_uri@,
                success_page@,
            ),
        url_raw@ == CANCEL_PATH@ ==> step@ == RequestStepView::Done(cancel_answer()),
        url_raw@ == SUCCESS_PATH@ ==> step@ == RequestStepView::Done(
            success_answer(success_page@),
        ),
        forall|path: Seq<char>, pairs: Seq<(Seq<char>, Seq<char>)>|
            #[trigger] plain_path(path) && url_raw@ == path + "?"@
                + #[trigger] written_query(pairs) ==> step@ == routed(
                good_url(path, pairs),
                redirect_uri@,
                success_page@,
            ),
        forall|code: Seq<char>|
            code.len() > 0 && url_raw@ == CALLBACK_PATH@ + "?code="@ + #[trigger] query_value(code)
                ==> step@ == RequestStepView::Exchange(token_request(redirect_uri@, code)),
        forall|pairs: Seq<(Seq<char>, Seq<char>)>, k: int|
            #![trigger written_query(pairs), pairs[k]]
            url_raw@ == "/auth/callback?"@ + written_query(pairs) && 0 <= k < pairs.len()
                && pairs[k].0 == "code"@ && (forall|j: int|
                k < j < pairs.len() ==> (#[trigger] pairs[j]).0 != "code"@) ==> {
                &&& pairs[k].1.len() > 0 ==> {
                    &&& step matches RequestStep::Exchange(request)
                    &&& request.url@ == "https://api.shengsuanyun.com/auth/keys"@
                    &&& request.content_type@ == "application/json"@
                    &&& request.body@ == json_object(
                        "code"@,
                        pairs[k].1,
                        "redirect_uri"@,
                        redirect_uri@,
                    )
                }
                &&& pairs[k].1.len() == 0 ==> {
                    &&& step matches RequestStep::Done(handled)
                    &&& handled matches HandledRequest::Response { status, text }
                    &&& status == 400
                    &&& text@ == "Missing authorization code"@
                }
            },
        forall|pairs: Seq<(Seq<char>, Seq<char>)>|
            url_raw@ == "/auth/callback?"@ + #[trigger] written_query(pairs) && (forall|j: int|
                0 <= j < pairs.len() ==> (#[trigger] pairs[j]).0 != "code"@) ==> {
                &&& step matches RequestStep::Done(handled)
                &&& handled matches HandledRequest::Response { status, text }
                &&& status == 400
                &&& text@ == "Missing authorization code"@
            },
        plain_path(url_raw@) && url_raw@ != "/auth/callback"@ && url_raw@ != "/success"@ && url_raw@
            != "/cancel"@ ==> {
            &&& step matches RequestStep::Done(handled)
            &&& handled matches HandledRequest::Response { status, text }
            &&& status == 404
            &&& text@ == "Not Found"@
        },
{
    let target: Result<RequestUrl, String> = read_target(url_raw);
    proof {
        known_paths_are_plain();
        callback_is_answered_by_its_query(url_raw@, url_result(target), redirect_uri@, success_page@);
        assert forall|code: Seq<char>|
            code.len() > 0 && url_raw@ == CALLBACK_PATH@ + "?code="@ + #[trigger] query_value(
                code,
            ) implies routed(url_result(target), redirect_uri@, success_page@)
            == RequestStepView::Exchange(token_request(redirect_uri@, code)) by {
            callback_with_code(code, redirect_uri@, success_page@);
        }
    }
    route_request(&target, redirect_uri, success_page)
}

/// Tokens to be saved, and where. `S` is the way in which credentials are stored.
pub struct SaveTokens<S> {
    pub codex_home: PathBuf,
    pub api_key: Option<String>,
    pub id_token: String,
    pub access_token: String,
    pub refresh_token: String,
    pub store_mode: S,
}

/// The step after a code was exchanged: the answer, or tokens to save.
pub enum ExchangeStep<S> {
    Done(HandledRequest),
    Save(SaveTokens<S>),
}

/// The answer where a code could not be exchanged.
pub open spec fn exchange_failed_answer(message: Seq<char>) -> HandledView {
    plain_answer(500, "Token exchange failed: "@ + message)
}

/// The tokens to save of those that a code was exchanged for.
pub open spec fn tokens_to_save<S>(options: ServerOptions<S>, tokens: ExchangedTokens) -> SaveTokens<
    S,
> {
    SaveTokens {
        codex_home: options.codex_home,
        api_key: Some(tokens.access_token),
        id_token: tokens.id_token,
        access_token: tokens.access_token,
        refresh_token: tokens.refresh_token,
        store_mode: options.cli_auth_credentials_store_mode,
    }
}

/// The API key that the token endpoint hands out is saved in every place of a token, and the JWT
/// as the identity; they go to the home and the store of the options.
pub proof fn api_key_is_saved_as_every_token<S>(options: ServerOptions<S>, reply: TokenReply)
    ensures
        ({
            let save = tokens_to_save(options, tokens_of(reply));
            &&& save.api_key == Some(reply.api_key)
            &&& save.access_token == reply.api_key
            &&& save.refresh_token == reply.api_key
            &&& save.id_token == reply.jwt_token
            &&& save.codex_home == options.codex_home
            &&& save.store_mode == options.cli_auth_credentials_store_mode
        }),
{
}

/// Goes on after a code was exchanged. The access token is also kept as the API key.
pub fn after_exchange<S: Copy>(
    options: &ServerOptions<S>,
    exchanged: Result<ExchangedTokens, LoginError>,
) -> (step: ExchangeStep<S>)
    ensures
        match exchanged {
            Ok(tokens) => {
                &&& step == ExchangeStep::Save(tokens_to_save(*options, tokens))
                &&& step matches ExchangeStep::Save(save)
                &&& save.codex_home == options.codex_home
                &&& save.api_key == Some(tokens.access_token)
                &&& save.id_token == tokens.id_token
                &&& save.access_token == tokens.access_token
                &&& save.refresh_token == tokens.refresh_token
                &&& save.store_mode == options.cli_auth_credentials_store_mode
            },
            Err(error) => {
                &&& step matches ExchangeStep::Done(handled)
                &&& handled@ == exchange_failed_answer(error.message@)
                &&& handled matches HandledRequest::Response { status, text }
                &&& status == 500
                &&& text@ == "Token exchange failed: "@ + error.message@
            },
        },
{
    match exchanged {
        Ok(tokens) => ExchangeStep::Save(
            SaveTokens {
                codex_home: options.codex_home.clone(),
                api_key: Some(tokens.access_token.clone()),
                id_token: tokens.id_token,
                access_token: tokens.access_token,
                refresh_token: tokens.refresh_token,
                store_mode: options.cli_auth_credentials_store_mode,
            },
        ),
        Err(error) => {
            let text: String = join2("Token exchange failed: ", error.message.as_str());
            ExchangeStep::Done(answer(500, text.as_str()))
        },
    }
}

/// The answer after tokens were saved, or could not be.
pub open spec fn saved_answer(
    saved: Result<(), LoginErrorView>,
    success_page: Seq<u8>,
) -> HandledView {
    match saved {
        Ok(_) => HandledView::Exit { headers: seq![], body: success_page, result: Ok(()) },
        Err(error) => plain_answer(500, "Unable to persist auth file: "@ + error.message),
    }
}

/// Answers a callback after its tokens were saved, or could not be.
pub fn after_save(saved: Result<(), LoginError>, success_page: &[u8]) -> (handled: HandledRequest)
    ensures
        handled@ == saved_answer(result_view(saved), success_page@),
        match saved {
            Ok(_) => {
                &&& handled matches HandledRequest::ResponseAndExit { headers, body, result }
                &&& headers@.len() == 0
                &&& body@ == success_page@
                &&& result is Ok
            },
            Err(error) => {
                &&& handled matches HandledRequest::Response { status, text }
                &&& status == 500
                &&& text@ == "Unable to persist auth file: "@ + error.message@
            },
        },
{
    match saved {
        Ok(_) => {
            let headers: Vec<Header> = Vec::new();
            assert(header_views(headers@) =~= seq![]);
            HandledRequest::ResponseAndExit {
                headers,
                body: slice_to_vec(success_page),
                result: Ok(()),
            }
        },
        Err(error) => {
            let text: String = join2("Unable to persist auth file: ", error.message.as_str());
            answer(500, text.as_str())
        },
    }
}

/// An answer that refuses the login and ends it.
pub open spec fn error_answer(message: Seq<char>) -> HandledView {
    HandledView::Exit {
        headers: seq![
            HeaderView { field: "Content-Type"@, value: "text/plain; charset=utf-8"@ },
        ],
        body: encode_utf8(message),
        result: Err(LoginErrorView { kind: ErrorKind::PermissionDenied, message }),
    }
}

/// Answers with an error, so that the code becomes unusable by anybody else, and ends the login.
pub fn login_error_response(message: &str) -> (handled: HandledRequest)
    ensures
        handled@ == error_answer(message@),
        ({
            &&& handled matches HandledRequest::ResponseAndExit { headers, body, result }
            &&& headers@.len() == 1
            &&& headers@[0]@.field == "Content-Type"@
            &&& headers@[0]@.value == "text/plain; charset=utf-8"@
            &&& body@ == encode_utf8(message@)
            &&& result matches Err(error)
            &&& error.kind == ErrorKind::PermissionDenied
            &&& error.message@ == message@
        }),
{
    proof {
        reveal_strlit("Content-Type");
        reveal_strlit("text/plain; charset=utf-8");
    }
    HandledRequest::ResponseAndExit {
        headers: single_header("Content-Type", "text/plain; charset=utf-8"),
        body: message.as_bytes_vec(),
        result: Err(LoginError::new(ErrorKind::PermissionDenied, message)),
    }
}

/// The answer to a request, by what its target was read as, what came of exchanging its code, if
/// it brought one, and what came of saving the tokens, if there were any.
pub open spec fn final_answer(
    target: Result<RequestUrlView, Seq<char>>,
    exchanged: Result<(), LoginErrorView>,
    saved: Result<(), LoginErrorView>,
    redirect_uri: Seq<char>,
    success_page: Seq<u8>,
) -> HandledView {
    match routed(target, redirect_uri, success_page) {
        RequestStepView::Done(handled) => handled,
        RequestStepView::Exchange(_) => match exchanged {
            Ok(_) => saved_answer(saved, success_page),
            Err(error) => exchange_failed_answer(error.message),
        },
    }
}

/// Says that a target is the callback with a code that is not empty.
pub open spec fn brings_code(target: Result<RequestUrlView, Seq<char>>) -> bool {
    &&& target matches Ok(url)
    &&& url.path == CALLBACK_PATH@
    &&& last_value(url.query, "code"@) matches Some(code)
    &&& code.len() > 0
}

/// A request ends the login well if and only if it brings a code, the code is exchanged and the
/// tokens are saved, or it asks for the success page.
pub proof fn login_ends_well_only_when_tokens_are_saved(
    target: Result<RequestUrlView, Seq<char>>,
    exchanged: Result<(), LoginErrorView>,
    saved: Result<(), LoginErrorView>,
    redirect_uri: Seq<char>,
    success_page: Seq<u8>,
)
    ensures
        (final_answer(target, exchanged, saved, redirect_uri, success_page) matches
            HandledView::Exit { headers, body, result } && result is Ok) <==> {
            ||| brings_code(target) && exchanged is Ok && saved is Ok
            ||| target matches Ok(url) && url.path == SUCCESS_PATH@
        },
{
    known_paths_are_plain();
}

/// Whatever the names and values of a callback's query are, and wherever the code stands among them:
/// the last pair named `code` settles the request. If its value is not empty, that value is
/// exchanged; only if it is empty, or there is no such pair, the code is missing.
pub proof fn callback_exchanges_the_last_code_of_its_query(
    url: RequestUrl,
    redirect_uri: &str,
    success_page: &[u8],
    step: RequestStep,
)
    requires
        call_ensures(
            route_request,
            (&Ok::<RequestUrl, String>(url), redirect_uri, success_page),
            step,
        ),
        url.path@ == "/auth/callback"@,
    ensures
        forall|k: int|
            0 <= k < url.query@.len() && (#[trigger] url.query@[k]).0@ == "code"@ && (forall|j: int|
                k < j < url.query@.len() ==> (#[trigger] url.query@[j]).0@ != "code"@)
                && url.query@[k].1@.len() > 0 ==> {
                &&& step matches RequestStep::Exchange(request)
                &&& request.body@ == json_object(
                    "code"@,
                    url.query@[k].1@,
                    "redirect_uri"@,
                    redirect_uri@,
                )
            },
        step is Done ==> forall|k: int|
            0 <= k < url.query@.len() && (#[trigger] url.query@[k]).0@ == "code"@ && (forall|j: int|
                k < j < url.query@.len() ==> (#[trigger] url.query@[j]).0@ != "code"@)
                ==> url.query@[k].1@.len() == 0,
        step is Exchange ==> exists|k: int|
            0 <= k < url.query@.len() && (#[trigger] url.query@[k]).0@ == "code"@
                && url.query@[k].1@.len() > 0,
{
    if step is Exchange {
        let from = choose|j: int|
            0 <= j < url.query@.len() && (#[trigger] url.query@[j]).0@ == "code"@;
        let k = last_pair_of_a_name(url.query@, "code"@, from);
        assert(url.query@[k].1@.len() > 0);
    }
}

proof fn last_pair_of_a_name(query: Seq<(String, String)>, name: Seq<char>, from: int) -> (k: int)
    requires
        0 <= from < query.len(),
        query[from].0@ == name,
    ensures
        from <= k < query.len(),
        query[k].0@ == name,
        forall|j: int| k < j < query.len() ==> (#[trigger] query[j]).0@ != name,
    decreases query.len() - from,
{
    if exists|j: int| from < j < query.len() && (#[trigger] query[j]).0@ == name {
        let j = choose|j: int| from < j < query.len() && (#[trigger] query[j]).0@ == name;
        last_pair_of_a_name(query, name, j)
    } else {
        from
    }
}

/// A request that fails does not end the login: a target that cannot be read, a callback without a
/// code, an exchange or a save that fails, and an unknown path are each answered with the status
/// of an error, and the server waits for the next request. Only the cancel path ends the login
/// badly.
pub proof fn failed_requests_leave_the_login_open(
    target: Result<RequestUrlView, Seq<char>>,
    exchanged: Result<(), LoginErrorView>,
    saved: Result<(), LoginErrorView>,
    redirect_uri: Seq<char>,
    success_page: Seq<u8>,
)
    ensures
        ({
            let handled = final_answer(target, exchanged, saved, redirect_uri, success_page);
            &&& target is Err ==> handled == plain_answer(400, "Bad Request"@)
            &&& target matches Ok(url) ==> {
                &&& url.path == CALLBACK_PATH@ && !brings_code(target) ==> handled
                    == plain_answer(400, "Missing authorization code"@)
                &&& brings_code(target) && exchanged is Err ==> (handled matches
                    HandledView::Response { status, text } && status == 500)
                &&& brings_code(target) && exchanged is Ok && saved is Err ==> (handled matches
                    HandledView::Response { status, text } && status == 500)
                &&& url.path != CALLBACK_PATH@ && url.path != SUCCESS_PATH@ && url.path
                    != CANCEL_PATH@ ==> handled == plain_answer(404, "Not Found"@)
            }
            &&& (handled matches HandledView::Exit { headers, body, result } && result is Err)
                <==> (target matches Ok(url) && url.path == CANCEL_PATH@)
        }),
{
    known_paths_are_plain();
}

} // verus!
