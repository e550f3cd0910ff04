//! The exchange of an authorization code for tokens, and the record in which they are kept.
use vstd::prelude::*;

use crate::error::LoginError;
#[allow(unused_imports)]
use crate::error::{ErrorKind, LoginErrorView};
use crate::text::join2;
#[allow(unused_imports)]
use crate::text::decimal;

verus! {

broadcast use vstd::string::group_string_axioms;

/// Where an authorization code is exchanged.
pub const TOKEN_ENDPOINT: &'static str = "https://api.shengsuanyun.com/auth/keys";

/// A request to the token endpoint, which is posted.
#[derive(Debug)]
pub struct TokenRequest {
    pub url: String,
    pub content_type: String,
    pub body: String,
}

/// What a request to the token endpoint says.
pub struct TokenRequestView {
    pub url: Seq<char>,
    pub content_type: Seq<char>,
    pub body: Seq<char>,
}

impl View for TokenRequest {
    type V = TokenRequestView;

    open spec fn view(&self) -> TokenRequestView {
        TokenRequestView {
            url: self.url@,
            content_type: self.content_type@,
            body: self.body@,
        }
    }
}

/// The lower-case hexadecimal digit of `d`.
pub open spec fn json_hex_digit(d: int) -> char {
    if d < 10 {
        (d + 48) as char
    } else {
        (d + 87) as char
    }
}

/// What a character becomes between the quotes of a JSON text.
pub open spec fn json_char(c: char) -> Seq<char> {
    let code = c as int;
    if c == '"' || c == '\\' {
        seq!['\\', c]
    } else if code == 8 {
        seq!['\\', 'b']
    } else if code == 9 {
        seq!['\\', 't']
    } else if code == 10 {
        seq!['\\', 'n']
    } else if code == 12 {
        seq!['\\', 'f']
    } else if code == 13 {
        seq!['\\', 'r']
    } else if code < 32 {
        seq!['\\', 'u', '0', '0', json_hex_digit(code / 16), json_hex_digit(code % 16)]
    } else {
        seq![c]
    }
}

/// What a text becomes between the quotes of a JSON text.
pub open spec fn json_escaped(text: Seq<char>) -> Seq<char>
    decreases text.len(),
{
    if text.len() == 0 {
        seq![]
    } else {
        json_char(text[0]) + json_escaped(text.skip(1))
    }
}

/// A text as JSON.
pub open spec fn json_text(text: Seq<char>) -> Seq<char> {
    seq!['"'] + json_escaped(text) + seq!['"']
}

/// A JSON object of two texts.
pub open spec fn json_object(
    name1: Seq<char>,
    value1: Seq<char>,
    name2: Seq<char>,
    value2: Seq<char>,
) -> Seq<char> {
    seq!['{'] + json_text(name1) + seq![':'] + json_text(value1) + seq![','] + json_text(name2)
        + seq![':'] + json_text(value2) + seq!['}']
}

/// Writes an object of two text members with the `Display` form of `serde_json::Value`.
///
/// Trusted of it: it is the compact JSON of the object, in which quotes, backslashes and control
/// characters are escaped and nothing else is. The members come in the order of their names, so
/// the first name has to come before the second.
#[verifier::external_body]
fn serde_json_object(name1: &str, value1: &str, name2: &str, value2: &str) -> (text: String)
    requires
        name1@.len() > 0,
        name2@.len() > 0,
        (name1@[0] as int) < (name2@[0] as int),
    ensures
        text@ == json_object(name1@, value1@, name2@, value2@),
{
    let mut members = serde_json::Map::new();
    members.insert(name1.to_string(), serde_json::Value::String(value1.to_string()));
    members.insert(name2.to_string(), serde_json::Value::String(value2.to_string()));
    serde_json::Value::Object(members).to_string()
}

/// The body with which a code is exchanged.
pub open spec fn token_request_body(code: Seq<char>, redirect_uri: Seq<char>) -> Seq<char> {
    json_object("code"@, code, "redirect_uri"@, redirect_uri)
}

/// The request with which a code is exchanged.
pub open spec fn token_request(redirect_uri: Seq<char>, code: Seq<char>) -> TokenRequestView {
    TokenRequestView {
        url: TOKEN_ENDPOINT@,
        content_type: "application/json"@,
        body: token_request_body(code, redirect_uri),
    }
}

/// Builds the request with which a code is exchanged: a JSON object of the code and the redirect
/// address.
pub fn build_token_request(redirect_uri: &str, code: &str) -> (request: TokenRequest)
    ensures
        request@ == token_request(redirect_uri@, code@),
        request.url@ == "https://api.shengsuanyun.com/auth/keys"@,
        request.content_type@ == "application/json"@,
        request.body@ == json_object("code"@, code@, "redirect_uri"@, redirect_uri@),
{
    proof {
        reveal_strlit("code");
        reveal_strlit("redirect_uri");
    }
    TokenRequest {
        url: TOKEN_ENDPOINT.to_owned(),
        content_type: "application/json".to_owned(),
        body: serde_json_object("code", code, "redirect_uri", redirect_uri),
    }
}

/// The text that the `http` crate shows for a status code.
pub uninterp spec fn status_text(code: u16) -> Seq<char>;

/// Shows a status code with the `Display` form of `http::StatusCode`.
///
/// Trusted of it: the text is fixed by the code, and starts with the code and a space. The
/// reason that follows is not stated.
#[verifier::external_body]
fn http_status_text(code: u16) -> (text: String)
    requires
        100 <= code <= 999,
    ensures
        text@ == status_text(code),
        text@.len() > 4 && text@.take(4) == decimal(code as nat).push(' '),
{
    http::StatusCode::from_u16(code).unwrap().to_string()
}

/// Says whether a status code tells of success.
pub open spec fn success_status(code: u16) -> bool {
    200 <= code <= 299
}

/// What comes of sending a request to the token endpoint: the status of its response, or why there
/// is none. Only a success goes on.
pub fn check_token_response(sent: Result<u16, String>) -> (checked: Result<(), LoginError>)
    requires
        sent matches Ok(code) ==> 100 <= code <= 999,
    ensures
        match sent {
            Ok(code) => {
                &&& checked is Ok <==> success_status(code)
                &&& checked is Ok <==> 200 <= code <= 299
                &&& checked matches Err(e) ==> e@ == (LoginErrorView {
                    kind: ErrorKind::Other,
                    message: "token endpoint returned status "@ + status_text(code),
                })
                &&& checked matches Err(e) ==> ("token endpoint returned status "@ + decimal(
                    code as nat,
                ) + " "@).is_prefix_of(e@.message)
            },
            Err(text) => checked matches Err(e) && e@ == (LoginErrorView {
                kind: ErrorKind::Other,
                message: text@,
            }),
        },
{
    match sent {
        Ok(code) => if 200 <= code && code <= 299 {
            Ok(())
        } else {
            let status: String = http_status_text(code);
            let message: String = join2("token endpoint returned status ", status.as_str());
            proof {
                reveal_strlit(" ");
                let start = "token endpoint returned status "@ + decimal(code as nat) + " "@;
                assert(start =~= "token endpoint returned status "@ + status@.take(4));
                assert(message@.take(start.len() as int) =~= start);
            }
            Err(LoginError::other(message.as_str()))
        },
        Err(text) => Err(LoginError::other(text.as_str())),
    }
}

/// The keys that the token endpoint hands out.
#[derive(Clone)]
pub struct TokenReply {
    pub api_key: String,
    pub jwt_token: String,
}

/// The tokens of a login.
#[derive(Clone)]
pub struct ExchangedTokens {
    pub id_token: String,
    pub access_token: String,
    pub refresh_token: String,
}

/// The tokens that are made of the keys.
pub open spec fn tokens_of(reply: TokenReply) -> ExchangedTokens {
    ExchangedTokens {
        id_token: reply.jwt_token,
        access_token: reply.api_key,
        refresh_token: reply.api_key,
    }
}

/// What comes of the token endpoint's reply: the JWT is the identity, and the API key serves as
/// access and refresh token. A reply that cannot be read is an error.
pub fn exchanged_tokens(reply: Result<TokenReply, String>) -> (tokens: Result<
    ExchangedTokens,
    LoginError,
>)
    ensures
        match reply {
            Ok(r) => {
                &&& tokens == Ok::<ExchangedTokens, LoginError>(tokens_of(r))
                &&& tokens matches Ok(t)
                &&& t.id_token == r.jwt_token
                &&& t.access_token == r.api_key
                &&& t.refresh_token == r.api_key
            },
            Err(text) => {
                &&& tokens matches Err(e)
                &&& e@ == (LoginErrorView { kind: ErrorKind::Other, message: text@ })
            },
        },
{
    match reply {
        Ok(r) => Ok(
            ExchangedTokens {
                id_token: r.jwt_token,
                access_token: r.api_key.clone(),
                refresh_token: r.api_key,
            },
        ),
        Err(text) => Err(LoginError::other(text.as_str())),
    }
}

/// A point in time: seconds since the Unix epoch, and nanoseconds on top of them. A leap second
/// has up to two thousand million of the latter.
#[derive(Debug, Clone, Copy, PartialEq, Eq, Structural)]
pub struct Timestamp {
    pub seconds: i64,
    pub nanoseconds: u32,
}

/// Tokens as they are kept. `I` is what an identity token was read as.
pub struct TokenData<I> {
    pub id_token: I,
    pub access_token: String,
    pub refresh_token: String,
    pub account_id: Option<String>,
}

/// The record that a login leaves behind.
pub struct AuthRecord<I> {
    pub openai_api_key: Option<String>,
    pub tokens: Option<TokenData<I>>,
    pub last_refresh: Option<Timestamp>,
}

/// Says what record is to be kept, or why there is none.
pub open spec fn is_auth_record<I>(
    record: Result<AuthRecord<I>, LoginError>,
    api_key: Option<String>,
    id_token: Result<I, String>,
    access_token: String,
    refresh_token: String,
    now: Timestamp,
) -> bool {
    match id_token {
        Ok(identity) => {
            &&& record matches Ok(r)
            &&& r.openai_api_key == api_key
            &&& r.tokens == Some(
                TokenData { id_token: identity, access_token, refresh_token, account_id: None },
            )
            &&& r.last_refresh == Some(now)
        },
        Err(text) => {
            &&& record matches Err(e)
            &&& e@ == (LoginErrorView { kind: ErrorKind::Other, message: text@ })
        },
    }
}

/// The record of a login at the time `now`. It fails where the identity token could not be read.
pub fn auth_record<I>(
    api_key: Option<String>,
    id_token: Result<I, String>,
    access_token: String,
    refresh_token: String,
    now: Timestamp,
) -> (record: Result<AuthRecord<I>, LoginError>)
    ensures
        is_auth_record(record, api_key, id_token, access_token, refresh_token, now),
        match id_token {
            Ok(identity) => {
                &&& record matches Ok(r)
                &&& r.openai_api_key == api_key
                &&& r.tokens matches Some(kept)
                &&& kept.id_token == identity
                &&& kept.access_token == access_token
                &&& kept.refresh_token == refresh_token
                &&& kept.account_id is None
                &&& r.last_refresh == Some(now)
            },
            Err(text) => {
                &&& record matches Err(e)
                &&& e.kind == ErrorKind::Other
                &&& e.message@ == text@
            },
        },
{
    match id_token {
        Ok(identity) => Ok(
            AuthRecord {
                openai_api_key: api_key,
                tokens: Some(
                    TokenData {
                        id_token: identity,
                        access_token,
                        refresh_token,
                        account_id: None,
                    },
                ),
                last_refresh: Some(now),
            },
        ),
        Err(text) => Err(LoginError::other(text.as_str())),
    }
}

/// Reads the clock with `chrono::Utc::now`.
///
/// Trusted of it: the part below a second is less than two thousand million nanoseconds. What the
/// time is, nothing states. On a machine whose clock stands before 1970, reading it panics.
#[verifier::external_body]
fn chrono_utc_now() -> (now: Timestamp)
    ensures
        now.nanoseconds < 2_000_000_000,
{
    let now = chrono::Utc::now();
    Timestamp { seconds: now.timestamp(), nanoseconds: now.timestamp_subsec_nanos() }
}

/// Says that a call of the clock can give this time.
pub closed spec fn clock_reading(time: Timestamp) -> bool {
    call_ensures(chrono_utc_now, (), time)
}

/// The record of a login that is kept now. The clock is read only where there is a record to date.
pub fn auth_record_now<I>(
    api_key: Option<String>,
    id_token: Result<I, String>,
    access_token: String,
    refresh_token: String,
) -> (record: Result<AuthRecord<I>, LoginError>)
    ensures
        exists|now: Timestamp|
            now.nanoseconds < 2_000_000_000 && #[trigger] is_auth_record(
                record,
                api_key,
                id_token,
                access_token,
                refresh_token,
                now,
            ),
        match id_token {
            Ok(identity) => {
                &&& record matches Ok(r)
                &&& r.openai_api_key == api_key
                &&& r.tokens matches Some(kept)
                &&& kept.id_token == identity
                &&& kept.access_token == access_token
                &&& kept.refresh_token == refresh_token
                &&& kept.account_id is None
                &&& r.last_refresh matches Some(now)
                &&& clock_reading(now)
                &&& now.nanoseconds < 2_000_000_000
            },
            Err(text) => {
                &&& record matches Err(e)
                &&& e.kind == ErrorKind::Other
                &&& e.message@ == text@
            },
        },
{
    let ghost read = id_token;
    match id_token {
        Ok(identity) => {
            let now: Timestamp = chrono_utc_now();
            auth_record(api_key, Ok(identity), access_token, refresh_token, now)
        },
        Err(text) => {
            let record: Result<AuthRecord<I>, LoginError> = Err(LoginError::other(text.as_str()));
            proof {
                let any = Timestamp { seconds: 0, nanoseconds: 0 };
                assert(is_auth_record(record, api_key, read, access_token, refresh_token, any));
            }
            record
        },
    }
}

/// A time that counts as a reading is one that a call of the clock gave, and none else.
proof fn readings_are_what_the_clock_gives(time: Timestamp)
    ensures
        clock_reading(time) <==> call_ensures(chrono_utc_now, (), time),
{
}

/// Every record that is kept is dated by a reading of the clock, whatever its API key and its tokens
/// are. There is a record wherever the identity token could be read.
pub proof fn kept_records_are_dated_by_the_clock<I>(
    api_key: Option<String>,
    id_token: Result<I, String>,
    access_token: String,
    refresh_token: String,
    record: Result<AuthRecord<I>, LoginError>,
)
    requires
        call_ensures(
            auth_record_now::<I>,
            (api_key, id_token, access_token, refresh_token),
            record,
        ),
    ensures
        record is Ok <==> id_token is Ok,
        record matches Ok(r) ==> {
            &&& r.last_refresh matches Some(time)
            &&& clock_reading(time)
        },
{
}

/// What comes of saving the record in a task of its own: the error of saving, or that of a task
/// that did not finish.
pub fn persist_outcome(joined: Result<Result<(), LoginError>, String>) -> (outcome: Result<
    (),
    LoginError,
>)
    ensures
        match joined {
            Ok(saved) => outcome == saved,
            Err(text) => {
                &&& outcome matches Err(e)
                &&& e@ == (LoginErrorView {
                    kind: ErrorKind::Other,
                    message: "persist task failed: "@ + text@,
                })
            },
        },
{
    match joined {
        Ok(saved) => saved,
        Err(text) => {
            let message: String = join2("persist task failed: ", text.as_str());
            Err(LoginError::other(message.as_str()))
        },
    }
}

/// A text is escaped character by character. Quotes and backslashes get a backslash, and whatever
/// is no control character is kept.
pub proof fn json_escaping_goes_character_by_character(
    first: Seq<char>,
    c: char,
    rest: Seq<char>,
)
    ensures
        json_escaped(first + seq![c] + rest) == json_escaped(first) + json_escaped(seq![c])
            + json_escaped(rest),
        c == '"' || c == '\\' ==> json_escaped(seq![c]) == seq!['\\', c],
        c != '"' && c != '\\' && c as int >= 32 ==> json_escaped(seq![c]) == seq![c],
        c as int == 10 ==> json_escaped(seq![c]) == seq!['\\', 'n'],
        json_escaped(Seq::<char>::empty()) == Seq::<char>::empty(),
    decreases first.len(),
{
    assert(seq![c].skip(1) =~= Seq::<char>::empty());
    assert(json_escaped(seq![c].skip(1)) =~= Seq::<char>::empty());
    assert(json_escaped(seq![c]) =~= json_char(c));
    let all = first + seq![c] + rest;
    if first.len() == 0 {
        assert(first =~= Seq::<char>::empty());
        assert(all.skip(1) =~= rest);
    } else {
        json_escaping_goes_character_by_character(first.skip(1), c, rest);
        assert(all.skip(1) =~= first.skip(1) + seq![c] + rest);
    }
    assert(json_escaped(all) =~= json_escaped(first) + json_escaped(seq![c]) + json_escaped(rest));
}

proof fn json_char_is_read_back(a: char, b: char, x: Seq<char>, y: Seq<char>)
    requires
        json_char(a) + x == json_char(b) + y,
    ensures
        a == b,
        x == y,
{
    let left = json_char(a) + x;
    let right = json_char(b) + y;
    assert(left[0] == json_char(a)[0] && right[0] == json_char(b)[0]);
    if json_char(a).len() >= 2 && json_char(b).len() >= 2 {
        assert(left[1] == json_char(a)[1] && right[1] == json_char(b)[1]);
    }
    if json_char(a).len() == 6 && json_char(b).len() == 6 {
        assert(left[4] == json_char(a)[4] && right[4] == json_char(b)[4]);
        assert(left[5] == json_char(a)[5] && right[5] == json_char(b)[5]);
    }
    assert(a == b);
    let n = json_char(a).len() as int;
    assert(left.skip(n) =~= x);
    assert(right.skip(n) =~= y);
}

proof fn json_escaped_is_read_back(a: Seq<char>, b: Seq<char>, x: Seq<char>, y: Seq<char>)
    requires
        json_escaped(a) + seq!['"'] + x == json_escaped(b) + seq!['"'] + y,
    ensures
        a == b,
        x == y,
    decreases a.len(),
{
    let left = json_escaped(a) + seq!['"'] + x;
    let right = json_escaped(b) + seq!['"'] + y;
    if a.len() == 0 && b.len() == 0 {
        assert(a =~= b);
        assert(left.skip(1) =~= x);
        assert(right.skip(1) =~= y);
    } else if a.len() == 0 {
        assert(left[0] == '"');
        assert(right[0] == json_char(b[0])[0]);
    } else if b.len() == 0 {
        assert(right[0] == '"');
        assert(left[0] == json_char(a[0])[0]);
    } else {
        let rest_a = json_escaped(a.skip(1)) + seq!['"'] + x;
        let rest_b = json_escaped(b.skip(1)) + seq!['"'] + y;
        assert(left =~= json_char(a[0]) + rest_a);
        assert(right =~= json_char(b[0]) + rest_b);
        json_char_is_read_back(a[0], b[0], rest_a, rest_b);
        json_escaped_is_read_back(a.skip(1), b.skip(1), x, y);
        assert(a =~= seq![a[0]] + a.skip(1));
        assert(b =~= seq![b[0]] + b.skip(1));
    }
}

proof fn body_is_cut_at_its_values(code: Seq<char>, redirect: Seq<char>, n1: Seq<char>, n2: Seq<char>)
    ensures
        ({
            let body = seq!['{'] + n1 + seq![':'] + (seq!['"'] + code + seq!['"']) + seq![','] + n2
                + seq![':'] + (seq!['"'] + redirect + seq!['"']) + seq!['}'];
            body.skip(n1.len() as int + 3) == code + seq!['"'] + (seq![','] + n2 + seq![':', '"'] + (
            redirect + seq!['"'] + seq!['}']))
        }),
{
    let head = seq!['{'] + n1 + seq![':'];
    let quoted = seq!['"'] + code + seq!['"'];
    let last = seq!['"'] + redirect + seq!['"'];
    let rest = seq![','] + n2 + seq![':'] + last + seq!['}'];
    let body = head + quoted + seq![','] + n2 + seq![':'] + last + seq!['}'];
    assert(body =~= head + (quoted + rest));
    assert(body.skip(head.len() as int) =~= quoted + rest);
    assert(body.skip(n1.len() as int + 3) =~= (quoted + rest).skip(1));
    assert((quoted + rest).skip(1) =~= code + seq!['"'] + rest);
    assert(rest =~= seq![','] + n2 + seq![':', '"'] + (redirect + seq!['"'] + seq!['}']));
}

/// Requests for different codes or different redirect addresses differ: whatever characters the
/// two hold, the body carries both of them whole.
pub proof fn token_request_carries_code_and_redirect(
    code_a: Seq<char>,
    redirect_a: Seq<char>,
    code_b: Seq<char>,
    redirect_b: Seq<char>,
)
    requires
        token_request(redirect_a, code_a).body == token_request(redirect_b, code_b).body,
    ensures
        code_a == code_b,
        redirect_a == redirect_b,
{
    let n1 = json_text("code"@);
    let n2 = json_text("redirect_uri"@);
    let middle = seq![','] + n2 + seq![':', '"'];
    let end_a = json_escaped(redirect_a) + seq!['"'] + seq!['}'];
    let end_b = json_escaped(redirect_b) + seq!['"'] + seq!['}'];
    body_is_cut_at_its_values(json_escaped(code_a), json_escaped(redirect_a), n1, n2);
    body_is_cut_at_its_values(json_escaped(code_b), json_escaped(redirect_b), n1, n2);
    json_escaped_is_read_back(code_a, code_b, middle + end_a, middle + end_b);
    let m = middle.len() as int;
    assert((middle + end_a).skip(m) =~= end_a);
    assert((middle + end_b).skip(m) =~= end_b);
    json_escaped_is_read_back(redirect_a, redirect_b, seq!['}'], seq!['}']);
}

} // verus!
