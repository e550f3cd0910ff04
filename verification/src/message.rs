//! Headers, and the final response of the login server.
use vstd::prelude::*;
use vstd::utf8::{encode_utf8, is_ascii_chars};

#[allow(unused_imports)]
use crate::list::filter_keeps_members;
use crate::text::decimal_text;
#[allow(unused_imports)]
use crate::text::decimal;

verus! {

broadcast use vstd::string::group_string_axioms;

/// Says whether all bytes are ASCII.
pub open spec fn all_ascii(bytes: Seq<u8>) -> bool {
    forall|i: int| 0 <= i < bytes.len() ==> #[trigger] bytes[i] < 128
}

/// The text that ASCII bytes spell.
pub open spec fn ascii_text(bytes: Seq<u8>) -> Seq<char> {
    bytes.map_values(|b: u8| b as char)
}

/// The lower-case form of an ASCII letter; any other character is kept.
pub open spec fn ascii_lower(c: char) -> char {
    if 'A' <= c && c <= 'Z' {
        (c as int + 32) as char
    } else {
        c
    }
}

/// Says whether two texts differ at most in the case of ASCII letters.
pub open spec fn same_ignoring_case(a: Seq<char>, b: Seq<char>) -> bool {
    &&& a.len() == b.len()
    &&& forall|i: int| 0 <= i < a.len() ==> ascii_lower(#[trigger] a[i]) == ascii_lower(b[i])
}

/// What a header says.
pub struct HeaderView {
    pub field: Seq<char>,
    pub value: Seq<char>,
}

/// A header. Both its parts are ASCII.
#[derive(Debug)]
pub struct Header {
    field: String,
    value: String,
}

impl View for Header {
    type V = HeaderView;

    closed spec fn view(&self) -> HeaderView {
        HeaderView { field: self.field@, value: self.value@ }
    }
}

/// Builds a header with `tiny_http::Header::from_bytes`, and takes its two parts out.
///
/// Trusted of that function: it succeeds if and only if both parts are ASCII, and then keeps them
/// as they are.
#[verifier::external_body]
fn tiny_http_header(field: &[u8], value: &[u8]) -> (parts: Result<(String, String), ()>)
    ensures
        parts.is_ok() == (all_ascii(field@) && all_ascii(value@)),
        parts matches Ok(p) ==> p.0@ == ascii_text(field@) && p.1@ == ascii_text(value@),
{
    let header = tiny_http::Header::from_bytes(field, value)?;
    Ok((header.field.as_str().as_str().to_string(), header.value.as_str().to_string()))
}

/// Compares a header's field with a name, with `tiny_http::HeaderField::equiv`.
///
/// Trusted of that function: it compares without regard to the case of ASCII letters. A field is
/// ASCII, so one that is not could not be built.
#[verifier::external_body]
fn tiny_http_field_equiv(field: &str, name: &'static str) -> (same: bool)
    requires
        is_ascii_chars(field@),
    ensures
        same == same_ignoring_case(field@, name@),
{
    tiny_http::HeaderField::from_bytes(field.as_bytes()).unwrap().equiv(name)
}

/// The reason phrase of a status code, from `tiny_http::StatusCode::default_reason_phrase`.
///
/// Trusted of that function: the phrase of 200 is `OK`. That of other codes is not stated.
#[verifier::external_body]
fn tiny_http_reason_phrase(code: u16) -> (phrase: &'static str)
    ensures
        code == 200 ==> phrase@ == "OK"@,
{
    tiny_http::StatusCode(code).default_reason_phrase()
}

impl Header {
    #[verifier::type_invariant]
    closed spec fn well_formed(self) -> bool {
        &&& is_ascii_chars(self.field@)
        &&& is_ascii_chars(self.value@)
    }

    /// Builds a header from its two parts. It fails where one of them is not ASCII.
    pub fn from_bytes(field: &[u8], value: &[u8]) -> (header: Result<Self, ()>)
        ensures
            header is Ok <==> all_ascii(field@) && all_ascii(value@),
            header matches Ok(h) ==> h@ == (HeaderView {
                field: ascii_text(field@),
                value: ascii_text(value@),
            }),
    {
        match tiny_http_header(field, value) {
            Ok((f, v)) => Ok(Header { field: f, value: v }),
            Err(e) => Err(e),
        }
    }

    /// The field's name.
    pub fn field(&self) -> (field: &str)
        ensures
            field@ == self@.field,
    {
        self.field.as_str()
    }

    /// The value.
    pub fn value(&self) -> (value: &str)
        ensures
            value@ == self@.value,
    {
        self.value.as_str()
    }

    /// Says whether the field's name is `name`, in any case.
    pub fn field_is(&self, name: &'static str) -> (same: bool)
        ensures
            same == same_ignoring_case(self@.field, name@),
    {
        proof {
            use_type_invariant(self);
        }
        tiny_http_field_equiv(self.field.as_str(), name)
    }
}

impl Clone for Header {
    fn clone(&self) -> (copy: Self)
        ensures
            copy@ == self@,
    {
        proof {
            use_type_invariant(self);
        }
        Header { field: self.field.clone(), value: self.value.clone() }
    }
}

/// Says whether a header is about the connection.
pub open spec fn is_connection_header(header: HeaderView) -> bool {
    same_ignoring_case(header.field, "Connection"@)
}

/// The header that asks for the connection to be closed.
pub open spec fn close_header() -> HeaderView {
    HeaderView { field: "Connection"@, value: "close"@ }
}

/// The header that gives the length of the body.
pub open spec fn content_length_header(body_len: nat) -> HeaderView {
    HeaderView { field: "Content-Length"@, value: decimal(body_len) }
}

/// The headers of a response after which the connection is closed: those given, but for any about
/// the connection, then the one that closes it, then the body's length.
pub open spec fn disconnect_headers(headers: Seq<HeaderView>, body_len: nat) -> Seq<HeaderView> {
    headers.filter(|h: HeaderView| !is_connection_header(h)).push(close_header()).push(
        content_length_header(body_len),
    )
}

/// One line of a response's head.
pub open spec fn header_line(header: HeaderView) -> Seq<char> {
    header.field + ": "@ + header.value + "\r\n"@
}

/// The lines of the headers, in order.
pub open spec fn header_lines(headers: Seq<HeaderView>) -> Seq<char>
    decreases headers.len(),
{
    if headers.len() == 0 {
        seq![]
    } else {
        header_lines(headers.drop_last()) + header_line(headers.last())
    }
}

/// All that is sent for a final response: the status line, the header lines, an empty line and
/// the body.
pub open spec fn disconnect_response(headers: Seq<HeaderView>, body: Seq<u8>) -> Seq<u8> {
    encode_utf8(
        "HTTP/1.1 200 OK\r\n"@ + header_lines(disconnect_headers(headers, body.len()))
            + "\r\n"@,
    ) + body
}

/// What the headers of a list say.
pub open spec fn header_views(headers: Seq<Header>) -> Seq<HeaderView> {
    headers.map_values(|h: Header| h@)
}

/// ASCII text is spelt by its UTF-8 bytes.
pub proof fn ascii_text_of_its_bytes(text: Seq<char>)
    requires
        is_ascii_chars(text),
    ensures
        all_ascii(encode_utf8(text)),
        ascii_text(encode_utf8(text)) == text,
{
    vstd::utf8::is_ascii_chars_encode_utf8(text);
    assert(ascii_text(encode_utf8(text)) =~= text);
}

/// The headers of a response after which the connection is closed.
fn with_disconnect(headers: Vec<Header>, body_len: usize) -> (all: Vec<Header>)
    ensures
        header_views(all@) == disconnect_headers(header_views(headers@), body_len as nat),
        forall|j: int|
            0 <= j < headers@.len() ==> is_ascii_chars(
                (#[trigger] header_views(headers@)[j]).field,
            ) && is_ascii_chars(header_views(headers@)[j].value),
{
    let ghost keep = |h: HeaderView| !is_connection_header(h);
    let mut all: Vec<Header> = Vec::new();
    let mut i: usize = 0;
    while i < headers.len()
        invariant
            i <= headers.len(),
            keep == (|h: HeaderView| !is_connection_header(h)),
            header_views(all@) == header_views(headers@).take(i as int).filter(keep),
            forall|j: int|
                0 <= j < i ==> is_ascii_chars((#[trigger] header_views(headers@)[j]).field)
                    && is_ascii_chars(header_views(headers@)[j].value),
        decreases headers.len() - i,
    {
        let header: &Header = &headers[i];
        proof {
            use_type_invariant(header);
            assert(header_views(headers@)[i as int] == header@);
            reveal(Seq::filter);
            let upto = header_views(headers@).take(i + 1);
            assert(upto.drop_last() =~= header_views(headers@).take(i as int));
            assert(upto.last() == headers@[i as int]@);
        }
        let ghost before = all@;
        if !header.field_is("Connection") {
            all.push(header.clone());
            assert(header_views(all@) =~= header_views(before).push(headers@[i as int]@));
        }
        i = i + 1;
    }
    assert(header_views(headers@).take(i as int) =~= header_views(headers@));
    proof {
        reveal_strlit("Connection");
        reveal_strlit("close");
        reveal_strlit("Content-Length");
        ascii_text_of_its_bytes("Connection"@);
        ascii_text_of_its_bytes("close"@);
        ascii_text_of_its_bytes("Content-Length"@);
    }
    let ghost kept = all@;
    match Header::from_bytes("Connection".as_bytes(), "close".as_bytes()) {
        Ok(header) => {
            all.push(header);
        },
        Err(_) => {},
    }
    let ghost closing = all@;
    assert(header_views(closing) =~= header_views(kept).push(close_header()));
    let length: String = decimal_text(body_len as u64);
    proof {
        decimal_is_ascii(body_len as nat);
        ascii_text_of_its_bytes(length@);
    }
    match Header::from_bytes("Content-Length".as_bytes(), length.as_str().as_bytes()) {
        Ok(header) => {
            all.push(header);
        },
        Err(_) => {},
    }
    assert(header_views(all@) =~= header_views(closing).push(
        content_length_header(body_len as nat),
    ));
    all
}

proof fn decimal_is_ascii(n: nat)
    ensures
        is_ascii_chars(decimal(n)),
    decreases n,
{
    if n >= 10 {
        decimal_is_ascii(n / 10);
    }
}

/// Writes out a final response with status 200. Whatever headers are given, it tells the client
/// that the connection is closed, so that the client does not keep it for a later login.
pub fn response_with_disconnect(headers: Vec<Header>, body: &[u8]) -> (bytes: Vec<u8>)
    ensures
        bytes@ == disconnect_response(header_views(headers@), body@),
        ({
            let n = bytes@.len() - body@.len();
            &&& n >= 4
            &&& bytes@.skip(n) == body@
            &&& bytes@.take(n) == encode_utf8(
                "HTTP/1.1 200 OK\r\n"@ + header_lines(
                    header_views(headers@).filter(
                        |h: HeaderView| !same_ignoring_case(h.field, "Connection"@),
                    ),
                ) + "Connection: close\r\nContent-Length: "@ + decimal(body@.len())
                    + "\r\n\r\n"@,
            )
            &&& bytes@[n - 4] == 13 && bytes@[n - 3] == 10 && bytes@[n - 2] == 13 && bytes@[n - 1]
                == 10
            &&& (forall|i: int|
                0 <= i < headers@.len() ==> !(#[trigger] headers@[i])@.field.contains('\n')
                    && !headers@[i]@.value.contains('\n')) ==> forall|k: int|
                0 <= k < n - 4 ==> !(#[trigger] bytes@[k] == 13 && bytes@[k + 1] == 10 && bytes@[k
                    + 2] == 13 && bytes@[k + 3] == 10)
        }),
{
    let ghost given = header_views(headers@);
    proof {
        if forall|i: int|
            0 <= i < headers@.len() ==> !(#[trigger] headers@[i])@.field.contains('\n')
                && !headers@[i]@.value.contains('\n') {
            assert forall|i: int| 0 <= i < given.len() implies !(#[trigger] given[i]).field.contains(
                '\n',
            ) && !given[i].value.contains('\n') by {
                assert(given[i] == headers@[i]@);
            }
        }
    }
    let code: u16 = 200;
    let mut head: String = "HTTP/1.1 ".to_owned();
    head.append(decimal_text(code as u64).as_str());
    head.append(" ");
    head.append(tiny_http_reason_phrase(code));
    head.append("\r\n");
    proof {
        reveal_with_fuel(decimal, 3);
        reveal_strlit("HTTP/1.1 ");
        reveal_strlit(" ");
        reveal_strlit("OK");
        reveal_strlit("\r\n");
        reveal_strlit("HTTP/1.1 200 OK\r\n");
        assert(decimal(200) =~= seq!['2', '0', '0']);
        assert(head@ =~= "HTTP/1.1 200 OK\r\n"@);
    }
    let all: Vec<Header> = with_disconnect(headers, body.len());
    let ghost lines = header_views(all@);
    let mut i: usize = 0;
    while i < all.len()
        invariant
            i <= all.len(),
            lines == header_views(all@),
            head@ == "HTTP/1.1 200 OK\r\n"@ + header_lines(lines.take(i as int)),
        decreases all.len() - i,
    {
        let header: &Header = &all[i];
        let ghost before = head@;
        head.append(header.field());
        head.append(": ");
        head.append(header.value());
        head.append("\r\n");
        proof {
            let upto = lines.take(i + 1);
            assert(upto.drop_last() =~= lines.take(i as int));
            assert(upto.last() == header@);
            assert(head@ =~= before + header_line(header@));
            assert(head@ =~= "HTTP/1.1 200 OK\r\n"@ + header_lines(upto));
        }
        i = i + 1;
    }
    assert(lines.take(i as int) =~= lines);
    head.append("\r\n");
    let mut bytes: Vec<u8> = head.as_str().as_bytes_vec();
    bytes.extend_from_slice(body);
    assert(bytes@ == disconnect_response(given, body@));
    proof {
        final_response_ends_with_the_whole_body(given, body@);
    }
    bytes
}

/// Headers are written out one after the other, each on a line of its own.
pub proof fn headers_are_written_line_by_line(
    first: Seq<HeaderView>,
    header: HeaderView,
    rest: Seq<HeaderView>,
)
    ensures
        header_lines(first + seq![header] + rest) == header_lines(first) + (header.field + ": "@
            + header.value + "\r\n"@) + header_lines(rest),
        header_lines(Seq::<HeaderView>::empty()) == Seq::<char>::empty(),
    decreases rest.len(),
{
    let all = first + seq![header] + rest;
    if rest.len() == 0 {
        assert(all.drop_last() =~= first);
        assert(all.last() == header);
    } else {
        headers_are_written_line_by_line(first, header, rest.drop_last());
        assert(all.drop_last() =~= first + seq![header] + rest.drop_last());
        assert(all.last() == rest.last());
    }
    assert(header_lines(all) =~= header_lines(first) + (header.field + ": "@ + header.value
        + "\r\n"@) + header_lines(rest));
}

proof fn header_lines_are_ascii(headers: Seq<HeaderView>)
    requires
        forall|i: int|
            0 <= i < headers.len() ==> is_ascii_chars((#[trigger] headers[i]).field)
                && is_ascii_chars(headers[i].value),
    ensures
        is_ascii_chars(header_lines(headers)),
    decreases headers.len(),
{
    if headers.len() > 0 {
        header_lines_are_ascii(headers.drop_last());
        reveal_strlit(": ");
        reveal_strlit("\r\n");
        assert(is_ascii_chars(headers[headers.len() - 1].field));
    }
}

/// Lines whose headers hold no line feed have no two line feeds that are two characters apart: no
/// line of them is empty.
proof fn header_lines_hold_no_empty_line(start: Seq<char>, headers: Seq<HeaderView>)
    requires
        forall|i: int|
            0 <= i < headers.len() ==> !(#[trigger] headers[i]).field.contains('\n')
                && !headers[i].value.contains('\n'),
        forall|k: int| 0 <= k < start.len() - 2 ==> !(#[trigger] start[k] == '\n' && start[k + 2]
            == '\n'),
    ensures
        ({
            let text = start + header_lines(headers);
            forall|k: int|
                0 <= k < text.len() - 2 ==> !(#[trigger] text[k] == '\n' && text[k + 2] == '\n')
        }),
    decreases headers.len(),
{
    let text = start + header_lines(headers);
    if headers.len() == 0 {
        assert(text =~= start);
    } else {
        let init = headers.drop_last();
        let header = headers.last();
        assert(header == headers[headers.len() - 1]);
        header_lines_hold_no_empty_line(start, init);
        let before = start + header_lines(init);
        let line = header_line(header);
        reveal_strlit(": ");
        reveal_strlit("\r\n");
        assert(text =~= before + line);
        let f = header.field.len();
        assert forall|i: int| 0 <= i < line.len() - 1 implies #[trigger] line[i] != '\n' by {
            if i < f {
                assert(line[i] == header.field[i]);
            } else if f + 2 <= i < f + 2 + header.value.len() {
                assert(line[i] == header.value[i - f - 2]);
            }
        }
        assert forall|k: int| 0 <= k < text.len() - 2 implies !(#[trigger] text[k] == '\n'
            && text[k + 2] == '\n') by {
            if k + 2 < before.len() {
                assert(text[k] == before[k] && text[k + 2] == before[k + 2]);
            } else if k < before.len() {
                assert(text[k + 2] == line[k + 2 - before.len()]);
            } else {
                assert(text[k] == line[k - before.len()]);
            }
        }
    }
}

/// A response ends with the whole body, byte by byte. Before it stands the head, which ends with an
/// empty line; where no header holds a line feed, that is the first empty line, so that exactly as
/// many bytes follow it as the line of the length says.
pub proof fn final_response_ends_with_the_whole_body(headers: Seq<HeaderView>, body: Seq<u8>)
    requires
        forall|i: int|
            0 <= i < headers.len() ==> is_ascii_chars((#[trigger] headers[i]).field)
                && is_ascii_chars(headers[i].value),
    ensures
        ({
            let bytes = disconnect_response(headers, body);
            let n = bytes.len() - body.len();
            &&& n >= 4
            &&& bytes.skip(n) == body
            &&& bytes.take(n) == encode_utf8(
                "HTTP/1.1 200 OK\r\n"@ + header_lines(
                    headers.filter(|h: HeaderView| !same_ignoring_case(h.field, "Connection"@)),
                ) + "Connection: close\r\nContent-Length: "@ + decimal(body.len())
                    + "\r\n\r\n"@,
            )
            &&& bytes[n - 4] == 13 && bytes[n - 3] == 10 && bytes[n - 2] == 13 && bytes[n - 1] == 10
            &&& (forall|i: int|
                0 <= i < headers.len() ==> !(#[trigger] headers[i]).field.contains('\n')
                    && !headers[i].value.contains('\n')) ==> forall|k: int|
                0 <= k < n - 4 ==> !(#[trigger] bytes[k] == 13 && bytes[k + 1] == 10 && bytes[k + 2]
                    == 13 && bytes[k + 3] == 10)
        }),
{
    let keep = |h: HeaderView| !is_connection_header(h);
    let others = |h: HeaderView| !same_ignoring_case(h.field, "Connection"@);
    assert(keep =~= others);
    let kept = headers.filter(keep);
    let all = disconnect_headers(headers, body.len());
    let start = "HTTP/1.1 200 OK\r\n"@;
    let lines = start + header_lines(all);
    let head = lines + "\r\n"@;
    let bytes = disconnect_response(headers, body);
    reveal_strlit("HTTP/1.1 200 OK\r\n");
    reveal_strlit("Connection");
    reveal_strlit("close");
    reveal_strlit("Content-Length");
    reveal_strlit(": ");
    reveal_strlit("\r\n");
    reveal_strlit("\r\n\r\n");
    reveal_strlit("Connection: close\r\nContent-Length: ");
    decimal_is_ascii(body.len());
    filter_keeps_members(headers, keep);
    assert forall|i: int| 0 <= i < all.len() implies is_ascii_chars((#[trigger] all[i]).field)
        && is_ascii_chars(all[i].value) by {
        if i < kept.len() {
            assert(headers.contains(kept[i]));
            let j = choose|j: int| 0 <= j < headers.len() && headers[j] == kept[i];
            assert(is_ascii_chars(headers[j].field));
        }
    }
    header_lines_are_ascii(all);
    vstd::utf8::is_ascii_chars_encode_utf8(head);
    assert(bytes.skip(bytes.len() - body.len()) =~= body);
    let closing = kept.push(close_header());
    assert(closing.drop_last() =~= kept);
    assert(all.drop_last() =~= closing);
    assert(header_lines(closing) == header_lines(kept) + header_line(close_header()));
    assert(header_lines(all) == header_lines(closing) + header_line(
        content_length_header(body.len()),
    ));
    assert(header_line(close_header()) + header_line(content_length_header(body.len())) + "\r\n"@
        =~= "Connection: close\r\nContent-Length: "@ + decimal(body.len()) + "\r\n\r\n"@);
    assert(head =~= start + header_lines(kept) + "Connection: close\r\nContent-Length: "@ + decimal(
        body.len(),
    ) + "\r\n\r\n"@);
    assert(bytes.take(bytes.len() - body.len()) =~= encode_utf8(head));
    let n = bytes.len() - body.len();
    assert forall|k: int| 0 <= k < n implies #[trigger] bytes[k] == head[k] as u8 by {}
    if forall|i: int|
        0 <= i < headers.len() ==> !(#[trigger] headers[i]).field.contains('\n')
            && !headers[i].value.contains('\n') {
        assert forall|i: int| 0 <= i < all.len() implies !(#[trigger] all[i]).field.contains('\n')
            && !all[i].value.contains('\n') by {
            if i < kept.len() {
                assert(headers.contains(kept[i]));
                let j = choose|j: int| 0 <= j < headers.len() && headers[j] == kept[i];
                assert(!headers[j].field.contains('\n'));
            } else if i == kept.len() + 1 {
                decimal_holds_no_line_feed(body.len());
            }
        }
        header_lines_hold_no_empty_line(start, all);
        assert forall|k: int| 0 <= k < n - 4 implies !(#[trigger] bytes[k] == 13 && bytes[k + 1]
            == 10 && bytes[k + 2] == 13 && bytes[k + 3] == 10) by {
            if bytes[k + 1] == 10 && bytes[k + 3] == 10 {
                assert(head[k + 1] == '\n' && head[k + 3] == '\n');
                assert(head[n - 2] == '\r');
                assert(lines[k + 1] == '\n' && lines[k + 1 + 2] == '\n');
            }
        }
    }
}

proof fn decimal_holds_no_line_feed(n: nat)
    ensures
        !decimal(n).contains('\n'),
    decreases n,
{
    if n >= 10 {
        decimal_holds_no_line_feed(n / 10);
        assert forall|i: int| 0 <= i < decimal(n).len() implies #[trigger] decimal(n)[i] != '\n' by {
            if i < decimal(n / 10).len() {
                assert(decimal(n)[i] == decimal(n / 10)[i]);
            }
        }
    }
}

/// Whatever headers are given, the response has exactly one header about the connection, and it
/// closes it. It is followed by the body's length, and nothing else is added.
pub proof fn final_response_always_closes_the_connection(headers: Seq<HeaderView>, body_len: nat)
    ensures
        ({
            let all = disconnect_headers(headers, body_len);
            let n = all.len() as int;
            &&& n >= 2
            &&& all[n - 2] == close_header()
            &&& all[n - 1] == content_length_header(body_len)
            &&& forall|i: int|
                0 <= i < n ==> (is_connection_header(#[trigger] all[i]) <==> i == n - 2)
            &&& forall|i: int| 0 <= i < n - 2 ==> headers.contains(#[trigger] all[i])
            &&& forall|h: HeaderView|
                headers.contains(h) && !is_connection_header(h) ==> #[trigger] all.contains(h)
        }),
{
    let keep = |h: HeaderView| !is_connection_header(h);
    let kept = headers.filter(keep);
    let all = disconnect_headers(headers, body_len);
    reveal_strlit("Connection");
    reveal_strlit("Content-Length");
    broadcast use vstd::seq_lib::group_filter_ensures;

    filter_keeps_members(headers, keep);
    assert forall|i: int| 0 <= i < all.len() - 2 implies headers.contains(#[trigger] all[i]) by {
        assert(all[i] == kept[i]);
        assert(kept.contains(kept[i]));
    }
    assert forall|h: HeaderView|
        headers.contains(h) && !is_connection_header(h) implies #[trigger] all.contains(h) by {
        let i = choose|i: int| 0 <= i < headers.len() && headers[i] == h;
        assert(keep(headers[i]));
        assert(kept.contains(h));
        let j = choose|j: int| 0 <= j < kept.len() && kept[j] == h;
        assert(all[j] == h);
    }
    assert(!is_connection_header(content_length_header(body_len)));
    assert(is_connection_header(close_header()));
}

} // verus!
