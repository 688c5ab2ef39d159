use mini_redis::{Frame, Parse, ParseError};

#[test]
fn parse_needs_an_array() {
    assert!(matches!(Parse::new(Frame::Null), Err(ParseError::NotAnArray)));
    assert!(matches!(Parse::new(Frame::Simple("x".to_string())), Err(ParseError::NotAnArray)));
    assert!(Parse::new(Frame::array()).is_ok());
}

#[test]
fn next_string_reads_simple_and_bulk_frames() {
    let frame = Frame::Array(vec![
        Frame::Simple("OK".to_string()),
        Frame::Bulk("h\u{e9}llo \u{4e16}\u{754c}".as_bytes().to_vec()),
        Frame::Integer(42),
        Frame::Bulk(vec![0xff, 0xfe]),
        Frame::Null,
    ]);
    let mut parse = Parse::new(frame).unwrap();
    assert_eq!(parse.next_string().unwrap(), "OK");
    assert_eq!(parse.next_string().unwrap(), "h\u{e9}llo \u{4e16}\u{754c}");
    assert!(matches!(parse.next_string(), Err(ParseError::NotAString)));
    assert!(matches!(parse.next_string(), Err(ParseError::InvalidUtf8)));
    assert!(matches!(parse.finish(), Err(ParseError::ExpectedEnd)));
    assert!(matches!(parse.next_string(), Err(ParseError::NotAString)));
    assert!(parse.finish().is_ok());
    assert!(matches!(parse.next_string(), Err(ParseError::EndOfStream)));
    assert!(parse.finish().is_ok());
}

#[test]
fn push_bulk_appends_to_an_array() {
    let mut frame = Frame::array();
    frame.push_bulk("SET".into());
    frame.push_bulk(Vec::new());
    match frame {
        Frame::Array(parts) => {
            assert_eq!(parts.len(), 2);
            assert!(matches!(&parts[0], Frame::Bulk(b) if b == b"SET"));
            assert!(matches!(&parts[1], Frame::Bulk(b) if b.is_empty()));
        }
        other => panic!("unexpected {:?}", other),
    }
}
