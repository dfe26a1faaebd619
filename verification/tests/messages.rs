use sip2::catalog;
use sip2::Field;
use sip2::FixedField;
use sip2::Message;

fn status_code_entry() -> catalog::FixedField {
    catalog::FixedField { label: "status code".to_owned(), length: 1 }
}

#[test]
fn invalid_fixed_field() {
    assert_eq!(FixedField::new(&status_code_entry(), "123").is_err(), true);
}

#[test]
fn ok_fixed_field() {
    assert_eq!(FixedField::new(&status_code_entry(), "3").is_ok(), true);
}

#[test]
fn sc_status_message() {
    let entry = catalog::Message::sc_status();
    let msg = Message::new(
        &entry,
        vec![
            FixedField::new(&entry.fixed_fields[0], "0").unwrap(),
            FixedField::new(&entry.fixed_fields[1], "999").unwrap(),
            FixedField::new(&entry.fixed_fields[2], "2.00").unwrap(),
        ],
        vec![],
    );
    assert_eq!(msg.to_sip(), "9909992.00");
}

#[test]
fn login_message() {
    let entry = catalog::Message::login();
    let msg = Message::new(
        &entry,
        vec![
            FixedField::new(&entry.fixed_fields[0], "0").unwrap(),
            FixedField::new(&entry.fixed_fields[1], "0").unwrap(),
        ],
        vec![
            Field::new("CN", "sip_username"),
            Field::new("CO", "sip_password"),
        ],
    );
    assert_eq!(msg.to_sip(), "9300CNsip_username|COsip_password|");
}

#[test]
fn fixed_field_to_str() {
    let entry = catalog::FixedField { label: "max print width".to_owned(), length: 3 };
    let ff = FixedField::new(&entry, "999").unwrap();
    assert_eq!(ff.to_sip(), "999");
}
