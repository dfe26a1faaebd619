use sip2::catalog;
use sip2::util;
use sip2::Error;
use sip2::Field;
use sip2::FixedField;
use sip2::Message;

#[test]
fn round_trip_login() {
    let entry = catalog::Message::login();
    let msg = Message::new(
        &entry,
        vec![
            FixedField::new(&entry.fixed_fields[0], "0").unwrap(),
            FixedField::new(&entry.fixed_fields[1], "0").unwrap(),
        ],
        vec![
            Field::new("CN", "sip_username"),
            Field::new("CO", "sip_password"),
            Field::new("CP", "main-branch"),
        ],
    );
    let decoded = Message::from_sip(&msg.to_sip()).unwrap();
    assert_eq!(decoded.spec().code, msg.spec().code);
    assert_eq!(decoded.fixed_fields().len(), 2);
    assert_eq!(decoded.fixed_fields()[0].value(), "0");
    assert_eq!(decoded.fixed_fields()[1].value(), "0");
    assert_eq!(decoded.fields().len(), 3);
    assert_eq!(decoded.fields()[0].code(), "CN");
    assert_eq!(decoded.fields()[0].value(), "sip_username");
    assert_eq!(decoded.fields()[1].code(), "CO");
    assert_eq!(decoded.fields()[1].value(), "sip_password");
    assert_eq!(decoded.fields()[2].code(), "CP");
    assert_eq!(decoded.fields()[2].value(), "main-branch");
}

#[test]
fn round_trip_duplicate_codes_keep_order() {
    let entry = catalog::Message::renew_all();
    let msg = Message::new(
        &entry,
        vec![FixedField::new(&entry.fixed_fields[0], "20240101    101010").unwrap()],
        vec![
            Field::new("AB", "item-one"),
            Field::new("AB", "item-two"),
            Field::new("AB", "item-one"),
        ],
    );
    let decoded = Message::from_sip(&msg.to_sip()).unwrap();
    assert_eq!(decoded.fields().len(), 3);
    assert_eq!(decoded.fields()[0].value(), "item-one");
    assert_eq!(decoded.fields()[1].value(), "item-two");
    assert_eq!(decoded.fields()[2].value(), "item-one");
}

#[test]
fn fixed_field_length_invariant() {
    let entry = catalog::FixedField { label: "language".to_owned(), length: 3 };
    assert_eq!(FixedField::new(&entry, "").is_err(), true);
    assert_eq!(FixedField::new(&entry, "0000").is_err(), true);
    assert_eq!(FixedField::new(&entry, "000").is_ok(), true);
    assert_eq!(
        FixedField::new(&entry, "0001").unwrap_err(),
        Error::FixedFieldLengthError
    );
}

#[test]
fn short_input_rejected() {
    // Too short even for a message code.
    assert_eq!(Message::from_sip("").unwrap_err(), Error::MessageFormatError);
    assert_eq!(Message::from_sip("9").unwrap_err(), Error::MessageFormatError);
    // A known code, but fewer characters than its fixed fields require.
    assert_eq!(Message::from_sip("930").unwrap_err(), Error::MessageFormatError);
    // Patron Status Response wants 14 + 3 + 18 fixed characters.
    assert_eq!(
        Message::from_sip("24Y             ").unwrap_err(),
        Error::MessageFormatError
    );
    // Exactly the fixed-field budget decodes.
    assert!(Message::from_sip("9300").is_ok());
}

#[test]
fn unknown_code_rejected() {
    assert_eq!(
        Message::from_sip("ZZ0000000000").unwrap_err(),
        Error::MessageFormatError
    );
    assert_eq!(Message::from_sip("00").unwrap_err(), Error::MessageFormatError);
}

#[test]
fn fragment_filtering() {
    // A 2-character code with no value, and the trailing empty chunk, are
    // both discarded as under-length.
    let msg = Message::from_sip("9300CN|").unwrap();
    assert_eq!(msg.fields().len(), 0);
}

#[test]
fn decode_login_example() {
    let msg = Message::from_sip("9300CNsip_username|COsip_password|").unwrap();
    assert_eq!(msg.spec().code, "93");
    assert_eq!(msg.fields()[0].code(), "CN");
    assert_eq!(msg.fields()[1].value(), "sip_password");
}

#[test]
fn encode_is_deterministic() {
    let entry = catalog::Message::login();
    let msg = Message::new(
        &entry,
        vec![
            FixedField::new(&entry.fixed_fields[0], "0").unwrap(),
            FixedField::new(&entry.fixed_fields[1], "0").unwrap(),
        ],
        vec![Field::new("CN", "user")],
    );
    assert_eq!(msg.to_sip(), msg.to_sip());
}

#[test]
fn field_sanitizes_delimiters() {
    let f = Field::new("CN", "howdy|par|dner");
    assert_eq!(f.to_sip(), "CNhowdypardner|");
    assert_eq!(util::sip_string("howdy|par|dner"), "howdypardner");
    assert_eq!(util::sip_string("clean"), "clean");
    assert_eq!(util::sip_string("|||"), "");
}

#[test]
fn get_field_value_returns_first_match() {
    let msg = Message::from_sip("9300AShold-one|AShold-two|").unwrap();
    assert_eq!(msg.get_field_value("AS").unwrap(), "hold-one");
    assert_eq!(msg.get_field_value("ZZ"), None);
}

#[test]
fn field_catalog_lookup() {
    let f = catalog::Field::from_code("CN").unwrap();
    assert_eq!(f.code, "CN");
    assert_eq!(f.label, "login user id");
    assert_eq!(catalog::Field::from_code("BL").unwrap().label, "valid patron");
    assert_eq!(catalog::Field::from_code("AJ").unwrap().label, "title identifier");
    assert_eq!(catalog::Field::from_code("RN").unwrap().label, "check number");
    assert!(catalog::Field::from_code("zz").is_none());
    assert!(catalog::Field::from_code("").is_none());
}

#[test]
fn message_catalog_lookup() {
    let m = catalog::Message::from_code("93").unwrap();
    assert_eq!(m.code, "93");
    assert_eq!(m.label, "Login Request");
    assert_eq!(m.fixed_fields.len(), 2);
    assert_eq!(m.fixed_fields[0].length, 1);

    // Renew responses share the Checkout Response shape under code "12".
    let renew_resp = catalog::Message::from_code("12").unwrap();
    assert_eq!(renew_resp.label, "Checkout Response");
    assert_eq!(renew_resp.fixed_fields.len(), 5);

    let patron_info_resp = catalog::Message::from_code("64").unwrap();
    let lens: Vec<usize> = patron_info_resp.fixed_fields.iter().map(|f| f.length).collect();
    assert_eq!(lens, vec![14, 3, 18, 4, 4, 4, 4, 4, 4]);

    assert!(catalog::Message::from_code("00").is_none());
    let codes = [
        "99", "98", "93", "94", "17", "18", "23", "24", "63", "64", "11", "12", "29", "65", "66",
        "09", "10", "15", "16", "37", "38",
    ];
    for code in codes.iter() {
        let m = catalog::Message::from_code(code).unwrap();
        assert_eq!(&m.code, code);
    }
}

#[test]
fn date_fixed_field_is_eighteen_characters() {
    // The protocol's date representation: an 8-digit date, exactly 4 literal
    // spaces, a 6-digit time.
    let entry = catalog::FixedField { label: "transaction date".to_owned(), length: 18 };
    let ff = FixedField::new(&entry, "19961219    163957").unwrap();
    assert_eq!(ff.to_sip(), "19961219    163957");
    assert_eq!(FixedField::new(&entry, "19961219 163957").is_err(), true);
}

#[test]
fn decimal_rendering() {
    assert_eq!(util::decimal_string(0), "0");
    assert_eq!(util::decimal_string(7), "7");
    assert_eq!(util::decimal_string(10), "10");
    assert_eq!(util::decimal_string(987654), "987654");
    assert_eq!(util::decimal_string(usize::MAX), usize::MAX.to_string());
}

#[test]
fn error_messages() {
    assert_eq!(Error::DateFormatError.message(), "date format error");
    assert_eq!(Error::FixedFieldLengthError.message(), "fixed field length error");
    assert_eq!(Error::MessageFormatError.message(), "sip message format error");
    assert_eq!(Error::NetworkError.message(), "network error");
    assert_eq!(Error::NoResponseError.message(), "no response error");
}

#[test]
fn message_catalog_shapes() {
    // Every message type with its exact fixed-field length sequence; a wrong
    // length would silently corrupt every subsequent field on decode.
    let shapes: Vec<(&str, Vec<usize>)> = vec![
        ("99", vec![1, 3, 4]),
        ("98", vec![1, 1, 1, 1, 1, 1, 3, 3, 18, 4]),
        ("93", vec![1, 1]),
        ("94", vec![1]),
        ("17", vec![18]),
        ("18", vec![2, 2, 2, 18]),
        ("23", vec![3, 18]),
        ("24", vec![14, 3, 18]),
        ("63", vec![3, 18, 10]),
        ("64", vec![14, 3, 18, 4, 4, 4, 4, 4, 4]),
        ("11", vec![1, 1, 18, 18]),
        ("12", vec![1, 1, 1, 1, 18]),
        ("29", vec![1, 1, 18, 18]),
        ("65", vec![18]),
        ("66", vec![1, 4, 4, 18]),
        ("09", vec![1, 18, 18]),
        ("10", vec![1, 1, 1, 1, 18]),
        ("15", vec![1, 18]),
        ("16", vec![1, 1, 18]),
        ("37", vec![18, 2, 2, 3]),
        ("38", vec![1, 18]),
    ];
    for (code, lens) in shapes {
        let m = catalog::Message::from_code(code).unwrap();
        let got: Vec<usize> = m.fixed_fields.iter().map(|f| f.length).collect();
        assert_eq!(got, lens, "shape of message code {}", code);
    }
}
