use sip2::client;
use sip2::Error;
use sip2::ItemInfoParams;
use sip2::LoginParams;
use sip2::Message;
use sip2::ParamBuilder;
use sip2::PatronInfoParams;
use sip2::PatronStatusParams;
use sip2::SipResponse;

const DATE: &str = "20240101    101010";

#[test]
fn login_request_encoding() {
    let params = LoginParams::new("sip_username", "sip_password");
    let req = client::login_request(&params);
    assert_eq!(req.to_sip(), "9300CNsip_username|COsip_password|");

    let mut with_location = LoginParams::new("u", "p");
    with_location.location = Some("lobby".to_owned());
    let req = client::login_request(&with_location);
    assert_eq!(req.to_sip(), "9300CNu|COp|CPlobby|");
}

#[test]
fn sc_status_request_encoding() {
    assert_eq!(client::sc_status_request().to_sip(), "9909992.00");
}

#[test]
fn login_verdict() {
    assert!(client::login_ok(&Message::from_sip("941").unwrap()));
    assert!(!client::login_ok(&Message::from_sip("940").unwrap()));
    // A response of the wrong type never counts as a successful login.
    assert!(!client::login_ok(&Message::from_sip("9300").unwrap()));
}

#[test]
fn sc_status_verdict() {
    let online = format!("98YYYYYY100005{}2.00", DATE);
    assert!(client::sc_status_ok(&Message::from_sip(&online).unwrap()));
    let offline = format!("98NYYYYY100005{}2.00", DATE);
    assert!(!client::sc_status_ok(&Message::from_sip(&offline).unwrap()));
}

#[test]
fn patron_status_request_encoding() {
    let mut params = PatronStatusParams::new("patron-1");
    params.institution = Some("inst".to_owned());
    params.patron_pwd = Some("pw".to_owned());
    params.terminal_pwd = Some("tpw".to_owned());
    let req = client::patron_status_request(&params, DATE).unwrap();
    assert_eq!(
        req.to_sip(),
        format!("23000{}AApatron-1|AOinst|ADpw|ACtpw|", DATE)
    );
    // A date of the wrong length is the builder's one rejection.
    assert_eq!(
        client::patron_status_request(&params, "2024").unwrap_err(),
        Error::FixedFieldLengthError
    );
}

#[test]
fn patron_verdict() {
    let valid = format!("24Y             000{}BLY|", DATE);
    assert!(client::patron_ok(&Message::from_sip(&valid).unwrap()));
    let invalid = format!("24Y             000{}BLN|", DATE);
    assert!(!client::patron_ok(&Message::from_sip(&invalid).unwrap()));
    let missing = format!("24Y             000{}AEA Name|", DATE);
    assert!(!client::patron_ok(&Message::from_sip(&missing).unwrap()));
}

#[test]
fn summary_field_rendering() {
    assert_eq!(client::summary_string(Some(2)), "  Y       ");
    assert_eq!(client::summary_string(Some(0)), "Y         ");
    assert_eq!(client::summary_string(Some(9)), "         Y");
    // An out-of-range index is silently ignored, not an error.
    assert_eq!(client::summary_string(Some(10)), "          ");
    assert_eq!(client::summary_string(None), "          ");
}

#[test]
fn patron_info_request_encoding() {
    let mut params = PatronInfoParams::new("patron-1");
    params.summary = Some(2);
    params.start_item = Some(1);
    params.end_item = Some(25);
    let req = client::patron_info_request(&params, DATE).unwrap();
    assert_eq!(req.fixed_fields()[2].value(), "  Y       ");
    assert_eq!(
        req.to_sip(),
        format!("63000{}  Y       AApatron-1|BP1|BQ25|", DATE)
    );
    assert_eq!(
        client::patron_info_request(&params, "").unwrap_err(),
        Error::FixedFieldLengthError
    );
}

#[test]
fn item_info_request_encoding() {
    let mut params = ItemInfoParams::new("item-42");
    params.institution = Some("inst".to_owned());
    let req = client::item_info_request(&params, DATE).unwrap();
    assert_eq!(req.to_sip(), format!("17{}ABitem-42|AOinst|", DATE));
    assert_eq!(
        client::item_info_request(&params, "late").unwrap_err(),
        Error::FixedFieldLengthError
    );
}

#[test]
fn item_info_verdict() {
    let found = format!("18020201{}AJSome Title|", DATE);
    assert!(client::item_info_ok(&Message::from_sip(&found).unwrap()));
    // An empty title chunk is discarded on decode, so the field is absent.
    let empty_title = format!("18020201{}AJ|", DATE);
    assert!(!client::item_info_ok(&Message::from_sip(&empty_title).unwrap()));
    let missing = format!("18020201{}", DATE);
    assert!(!client::item_info_ok(&Message::from_sip(&missing).unwrap()));
}

#[test]
fn param_builder_to_login() {
    let mut b = ParamBuilder::new();
    b.set_sip_user("user");
    b.set_sip_pass("pass");
    let login = b.to_login();
    assert_eq!(login.sip_user(), "user");
    assert_eq!(login.sip_pass(), "pass");
    assert_eq!(login.location(), None);

    b.set_location("annex");
    let login = b.to_login();
    assert_eq!(login.sip_user(), "user");
    assert_eq!(login.location(), Some("annex"));
}

#[test]
fn param_builder_keeps_other_fields() {
    let mut b = ParamBuilder::new();
    b.set_sip_user("user");
    b.set_sip_pass("first");
    b.set_sip_pass("second");
    let login = b.to_login();
    assert_eq!(login.sip_user(), "user");
    assert_eq!(login.sip_pass(), "second");
}

#[test]
fn sip_response_wrapping() {
    let msg = Message::from_sip("9300CNuser|").unwrap();
    let resp = SipResponse::new(msg, true);
    assert!(resp.ok());
    assert_eq!(resp.value("CN").unwrap(), "user");
    assert_eq!(resp.value("CO"), None);
    assert_eq!(resp.msg().spec().code, "93");
}
