use shengsuanyun::message::{response_with_disconnect, Header};

fn header(field: &str, value: &str) -> Header {
    Header::from_bytes(field.as_bytes(), value.as_bytes()).unwrap()
}

#[test]
fn final_response_is_written_out_exactly() {
    let bytes = response_with_disconnect(
        vec![header("Content-Type", "text/html; charset=utf-8")],
        b"<p>ok</p>",
    );
    let expected = "HTTP/1.1 200 OK\r\nContent-Type: text/html; charset=utf-8\r\nConnection: close\r\nContent-Length: 9\r\n\r\n<p>ok</p>";
    assert_eq!(String::from_utf8(bytes).unwrap(), expected);
}

#[test]
fn connection_headers_are_replaced_in_any_case() {
    let bytes = response_with_disconnect(
        vec![
            header("connection", "keep-alive"),
            header("X-Trace", "1"),
            header("CONNECTION", "upgrade"),
        ],
        b"",
    );
    let expected =
        "HTTP/1.1 200 OK\r\nX-Trace: 1\r\nConnection: close\r\nContent-Length: 0\r\n\r\n";
    assert_eq!(String::from_utf8(bytes).unwrap(), expected);
}

#[test]
fn headers_are_ascii() {
    assert!(Header::from_bytes("Größe".as_bytes(), b"1").is_err());
    assert!(Header::from_bytes(b"Size", "groß".as_bytes()).is_err());
    let plain = header("Size", "large");
    assert_eq!(plain.field(), "Size");
    assert_eq!(plain.value(), "large");
    assert!(plain.field_is("SIZE"));
    assert!(!plain.field_is("Sizes"));
}
