use cargo_boj::code_open::{CodeOpen, ParseError};

#[test]
fn from_str_accepts_the_three_literals() {
    assert_eq!(CodeOpen::from_str("y"), Ok(CodeOpen::Yes));
    assert_eq!(CodeOpen::from_str("n"), Ok(CodeOpen::No));
    assert_eq!(CodeOpen::from_str("ac"), Ok(CodeOpen::YesOnAc));
}

#[test]
fn from_str_rejects_everything_else() {
    assert_eq!(CodeOpen::from_str(""), Err(ParseError));
    assert_eq!(CodeOpen::from_str("Y"), Err(ParseError));
    assert_eq!(CodeOpen::from_str("N"), Err(ParseError));
    assert_eq!(CodeOpen::from_str("AC"), Err(ParseError));
    assert_eq!(CodeOpen::from_str("yes"), Err(ParseError));
    assert_eq!(CodeOpen::from_str("no"), Err(ParseError));
    assert_eq!(CodeOpen::from_str(" y"), Err(ParseError));
    assert_eq!(CodeOpen::from_str("ac "), Err(ParseError));
    assert_eq!(CodeOpen::from_str("open"), Err(ParseError));
}

#[test]
fn wire_strings_are_fixed() {
    assert_eq!(CodeOpen::Yes.to_string(), "open");
    assert_eq!(CodeOpen::No.to_string(), "close");
    assert_eq!(CodeOpen::YesOnAc.to_string(), "onlyaccepted");
}

#[test]
fn parse_error_message_text() {
    assert_eq!(
        ParseError.message(),
        "provided string was not `y`, `n`, or `ac`"
    );
}
