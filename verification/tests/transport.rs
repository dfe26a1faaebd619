use sip2::client;
use sip2::framing;
use sip2::util;
use sip2::Error;
use sip2::LoginParams;

#[test]
fn outbound_appends_terminator() {
    let req = client::sc_status_request();
    assert_eq!(framing::outbound_text(&req, false), "9909992.00\r");
}

#[test]
fn outbound_ascii_transliterates() {
    let params = LoginParams::new("caf\u{e9}", "na\u{ef}ve");
    let req = client::login_request(&params);
    // Without ascii mode the text keeps its characters.
    assert_eq!(framing::outbound_text(&req, false), "9300CNcaf\u{e9}|COna\u{ef}ve|\r");
    // With ascii mode every character is transliterated to ASCII.  The
    // transliteration maps away control characters near non-ASCII input, so
    // the terminator does not survive here either -- exactly what writing
    // the transliterated frame has always put on the wire.
    assert_eq!(framing::outbound_text(&req, true), "9300CNcafe|COnaive|");
    // All-ASCII text passes through unchanged.
    let plain = client::login_request(&LoginParams::new("user", "pass"));
    assert_eq!(framing::outbound_text(&plain, true), "9300CNuser|COpass|\r");
}

#[test]
fn empty_read_is_no_response() {
    // Zero accumulated bytes mean "nothing sent", never an empty message and
    // never a transport error.
    assert_eq!(framing::parse_response("").unwrap_err(), Error::NoResponseError);
}

#[test]
fn response_is_cut_at_first_terminator() {
    let msg = framing::parse_response("941\rtrailing junk").unwrap();
    assert_eq!(msg.spec().code, "94");
    assert_eq!(msg.fixed_fields()[0].value(), "1");
    // Without any terminator the whole text is the message.
    let msg = framing::parse_response("9300CNuser|").unwrap();
    assert_eq!(msg.fields()[0].value(), "user");
    // A leading terminator leaves an empty first segment: no message.
    assert_eq!(
        framing::parse_response("\r941").unwrap_err(),
        Error::MessageFormatError
    );
}

#[test]
fn malformed_response_is_format_error() {
    assert_eq!(
        framing::parse_response("ZZnope\r").unwrap_err(),
        Error::MessageFormatError
    );
}

#[test]
fn sip_date_from_rfc3339() {
    let date = util::sip_date("1996-12-19T16:39:57-08:00").unwrap();
    assert_eq!(date, "19961219    163957");
    assert_eq!(util::sip_date("YARP!").unwrap_err(), Error::DateFormatError);
}

#[test]
fn sip_date_now_fits_the_wire() {
    let now = util::sip_date_now();
    assert_eq!(now.len(), 18);
    assert_eq!(&now[8..12], "    ");
}
