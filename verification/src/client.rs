//! The transaction layer: each domain operation builds one request message
//! from its parameters, and reads success off the decoded response.
//!
//! The transport exchange itself (send, then receive) happens outside these
//! functions; everything here is a pure function from parameters to a
//! message, or from a decoded response to its "ok" verdict.

use vstd::prelude::*;
use vstd::pervasive::unreached;

use crate::catalog;
use crate::error::Error;
use crate::message::Field;
use crate::message::FieldValue;
use crate::message::FixedField;
use crate::message::FixedFieldValue;
use crate::message::Message;
use crate::message::MessageValue;
use crate::message::field_value_views;
use crate::message::first_field_value;
use crate::params::ItemInfoParams;
use crate::params::ItemInfoParamsValue;
use crate::params::LoginParams;
use crate::params::LoginParamsValue;
use crate::params::PatronInfoParams;
use crate::params::PatronInfoParamsValue;
use crate::params::PatronStatusParams;
use crate::params::PatronStatusParamsValue;
use crate::util;

verus! {

/// An optional variable field: present exactly when the parameter was given.
pub open spec fn opt_field(code: Seq<char>, v: Option<Seq<char>>) -> Seq<FieldValue> {
    match v {
        Some(x) => seq![FieldValue { code, value: x }],
        None => Seq::empty(),
    }
}

/// An optional numeric variable field, rendered in decimal.
pub open spec fn opt_num_field(code: Seq<char>, v: Option<usize>) -> Seq<FieldValue> {
    match v {
        Some(x) => seq![FieldValue { code, value: util::spec_decimal(x as nat) }],
        None => Seq::empty(),
    }
}

/// Binds a value whose length is known to match its slot; the request
/// builders use it for protocol-mandated constants.
fn must_fixed(entry: &catalog::FixedField, value: &str) -> (r: FixedField)
    requires
        value@.len() == entry@.length,
    ensures
        r@ == (FixedFieldValue { entry: entry@, value: value@ }),
{
    match FixedField::new(entry, value) {
        Ok(f) => f,
        Err(_) => unreached(),
    }
}

// ------------------------------------------------------------------
// Login
// ------------------------------------------------------------------

/// The login request: both algorithm indicators fixed at "0" (clear text),
/// the credentials as variable fields, and the location code when given.
pub open spec fn spec_login_request(p: LoginParamsValue) -> MessageValue {
    MessageValue {
        entry: catalog::Message::login_spec(),
        fixed_fields: seq![
            FixedFieldValue { entry: catalog::ffspec("uid algorithm"@, 1), value: "0"@ },
            FixedFieldValue { entry: catalog::ffspec("pwd algorithm"@, 1), value: "0"@ },
        ],
        fields: seq![
            FieldValue { code: "CN"@, value: p.username },
            FieldValue { code: "CO"@, value: p.password },
        ] + opt_field("CP"@, p.location),
    }
}

/// Builds the login request message.
pub fn login_request(params: &LoginParams) -> (r: Message)
    ensures
        r@ == spec_login_request(params@),
        r@.wf(),
{
    let entry = catalog::Message::login();
    proof {
        reveal_strlit("0");
        catalog::lemma_message_view_fields(&entry);
    }
    let mut ffs: Vec<FixedField> = Vec::new();
    ffs.push(must_fixed(&entry.fixed_fields[0], "0"));
    ffs.push(must_fixed(&entry.fixed_fields[1], "0"));
    let mut fields: Vec<Field> = Vec::new();
    fields.push(Field::new("CN", params.sip_user()));
    fields.push(Field::new("CO", params.sip_pass()));
    let ghost base = field_value_views(fields@);
    match params.location() {
        Some(l) => {
            fields.push(Field::new("CP", l));
            proof {
                assert(field_value_views(fields@) =~= base + opt_field("CP"@, params@.location));
            }
        },
        None => {
            proof {
                assert(field_value_views(fields@) =~= base + opt_field("CP"@, params@.location));
            }
        },
    }
    let r = Message::new(&entry, ffs, fields);
    proof {
        assert(r@.fixed_fields =~= spec_login_request(params@).fixed_fields);
        assert(base =~= seq![
            FieldValue { code: "CN"@, value: params@.username },
            FieldValue { code: "CO"@, value: params@.password },
        ]);
        assert(r@ =~= spec_login_request(params@));
    }
    r
}

/// Success for login: the response is a Login Response whose single fixed
/// field equals "1".
pub open spec fn spec_login_ok(m: MessageValue) -> bool {
    &&& m.entry.code == "94"@
    &&& m.fixed_fields.len() == 1
    &&& m.fixed_fields[0].value == "1"@
}

/// Reads the login verdict off a decoded response.
pub fn login_ok(resp: &Message) -> (r: bool)
    ensures
        r == spec_login_ok(resp@),
{
    if !util::str_eq(resp.spec().code.as_str(), "94") {
        return false;
    }
    let ffs = resp.fixed_fields();
    if ffs.len() != 1 {
        return false;
    }
    util::str_eq(ffs[0].value(), "1")
}

// ------------------------------------------------------------------
// SC status
// ------------------------------------------------------------------

/// The status-check request: status code "0", maximum print width "999",
/// and the protocol version.
pub open spec fn spec_sc_status_request() -> MessageValue {
    MessageValue {
        entry: catalog::Message::sc_status_spec(),
        fixed_fields: seq![
            FixedFieldValue { entry: catalog::ffspec("status code"@, 1), value: "0"@ },
            FixedFieldValue { entry: catalog::ffspec("max print width"@, 3), value: "999"@ },
            FixedFieldValue { entry: catalog::ffspec("protocol version"@, 4), value: "2.00"@ },
        ],
        fields: Seq::empty(),
    }
}

/// Builds the status-check request message.
pub fn sc_status_request() -> (r: Message)
    ensures
        r@ == spec_sc_status_request(),
        r@.wf(),
{
    let entry = catalog::Message::sc_status();
    proof {
        reveal_strlit("0");
        reveal_strlit("999");
        reveal_strlit("2.00");
        catalog::lemma_message_view_fields(&entry);
    }
    let mut ffs: Vec<FixedField> = Vec::new();
    ffs.push(must_fixed(&entry.fixed_fields[0], "0"));
    ffs.push(must_fixed(&entry.fixed_fields[1], "999"));
    ffs.push(must_fixed(&entry.fixed_fields[2], "2.00"));
    let fields: Vec<Field> = Vec::new();
    let r = Message::new(&entry, ffs, fields);
    proof {
        assert(r@.fixed_fields =~= spec_sc_status_request().fixed_fields);
        assert(r@.fields =~= spec_sc_status_request().fields);
        assert(r@ =~= spec_sc_status_request());
    }
    r
}

/// Success for the status check: the response's first fixed field equals
/// "Y" (the service reports that it is online).
pub open spec fn spec_sc_status_ok(m: MessageValue) -> bool {
    &&& m.fixed_fields.len() > 0
    &&& m.fixed_fields[0].value == "Y"@
}

/// Reads the status-check verdict off a decoded response.
pub fn sc_status_ok(resp: &Message) -> (r: bool)
    ensures
        r == spec_sc_status_ok(resp@),
{
    let ffs = resp.fixed_fields();
    if ffs.len() == 0 {
        return false;
    }
    util::str_eq(ffs[0].value(), "Y")
}

// ------------------------------------------------------------------
// Patron status and patron information
// ------------------------------------------------------------------

/// The patron-status request: language "000" and the transaction date as
/// fixed fields; the patron id and any optional credentials as variable
/// fields.
pub open spec fn spec_patron_status_request(
    p: PatronStatusParamsValue,
    date: Seq<char>,
) -> MessageValue {
    MessageValue {
        entry: catalog::Message::patron_status_spec(),
        fixed_fields: seq![
            FixedFieldValue { entry: catalog::ffspec("language"@, 3), value: "000"@ },
            FixedFieldValue { entry: catalog::ffspec("transaction date"@, 18), value: date },
        ],
        fields: seq![FieldValue { code: "AA"@, value: p.patron_id }] + opt_field(
            "AO"@,
            p.institution,
        ) + opt_field("AD"@, p.patron_pwd) + opt_field("AC"@, p.terminal_pwd),
    }
}

/// Builds the patron-status request message.  The date must be the
/// protocol's 18-character representation; any other length is the one
/// rejection this builder knows.
pub fn patron_status_request(params: &PatronStatusParams, date: &str) -> (r: Result<Message, Error>)
    ensures
        r is Ok <==> date@.len() == 18,
        r is Ok ==> r.unwrap()@ == spec_patron_status_request(params@, date@),
        r is Ok ==> r.unwrap()@.wf(),
        r is Err ==> r->Err_0 == Error::FixedFieldLengthError,
{
    let entry = catalog::Message::patron_status();
    proof {
        reveal_strlit("000");
        catalog::lemma_message_view_fields(&entry);
    }
    let mut ffs: Vec<FixedField> = Vec::new();
    ffs.push(must_fixed(&entry.fixed_fields[0], "000"));
    let d = match FixedField::new(&entry.fixed_fields[1], date) {
        Ok(f) => f,
        Err(e) => {
            return Err(e);
        },
    };
    ffs.push(d);
    let mut fields: Vec<Field> = Vec::new();
    fields.push(Field::new("AA", params.patron_id.as_str()));
    let ghost base0 = field_value_views(fields@);
    match &params.institution {
        Some(v) => {
            fields.push(Field::new("AO", v.as_str()));
            proof {
                assert(field_value_views(fields@) =~= base0 + opt_field("AO"@, params@.institution));
            }
        },
        None => {
            proof {
                assert(field_value_views(fields@) =~= base0 + opt_field("AO"@, params@.institution));
            }
        },
    }
    let ghost base1 = field_value_views(fields@);
    match &params.patron_pwd {
        Some(v) => {
            fields.push(Field::new("AD", v.as_str()));
            proof {
                assert(field_value_views(fields@) =~= base1 + opt_field("AD"@, params@.patron_pwd));
            }
        },
        None => {
            proof {
                assert(field_value_views(fields@) =~= base1 + opt_field("AD"@, params@.patron_pwd));
            }
        },
    }
    let ghost base2 = field_value_views(fields@);
    match &params.terminal_pwd {
        Some(v) => {
            fields.push(Field::new("AC", v.as_str()));
            proof {
                assert(field_value_views(fields@) =~= base2 + opt_field(
                    "AC"@,
                    params@.terminal_pwd,
                ));
            }
        },
        None => {
            proof {
                assert(field_value_views(fields@) =~= base2 + opt_field(
                    "AC"@,
                    params@.terminal_pwd,
                ));
            }
        },
    }
    let r = Message::new(&entry, ffs, fields);
    proof {
        assert(r@.fixed_fields =~= spec_patron_status_request(params@, date@).fixed_fields);
        assert(base0 =~= seq![FieldValue { code: "AA"@, value: params@.patron_id }]);
        assert(r@ =~= spec_patron_status_request(params@, date@));
    }
    Ok(r)
}

/// Success for both patron operations: the "valid patron" variable field
/// (code "BL") is present and equals "Y".
pub open spec fn spec_patron_ok(m: MessageValue) -> bool {
    first_field_value(m.fields, "BL"@) == Some("Y"@)
}

/// Reads the patron verdict off a decoded response, for patron status and
/// patron information alike.
pub fn patron_ok(resp: &Message) -> (r: bool)
    ensures
        r == spec_patron_ok(resp@),
{
    match resp.get_field_value("BL") {
        Some(v) => util::str_eq(v.as_str(), "Y"),
        None => false,
    }
}

/// The 10-character summary field: position `summary` (zero-based) holds
/// 'Y' when a position in range was requested; every other position is a
/// space, and an out-of-range index is silently ignored.
pub open spec fn spec_summary(summary: Option<usize>) -> Seq<char> {
    Seq::new(
        10,
        |i: int|
            (if (match summary {
                Some(k) => i == k as int,
                None => false,
            }) {
                'Y'
            } else {
                ' '
            }),
    )
}

/// Renders the 10-character summary field.
pub fn summary_string(summary: Option<usize>) -> (r: String)
    ensures
        r@ == spec_summary(summary),
        r@.len() == 10,
{
    let mut s = String::new();
    let mut i: usize = 0;
    while i < 10
        invariant
            i <= 10,
            s@ == spec_summary(summary).take(i as int),
        decreases 10 - i,
    {
        let c = match summary {
            Some(k) => if k == i {
                'Y'
            } else {
                ' '
            },
            None => ' ',
        };
        util::push_char(&mut s, c);
        proof {
            assert(s@ =~= spec_summary(summary).take(i as int + 1));
        }
        i += 1;
    }
    proof {
        assert(spec_summary(summary).take(10) =~= spec_summary(summary));
    }
    s
}

/// The patron-information request: the patron-status shape plus the summary
/// fixed field and optional pagination fields.
pub open spec fn spec_patron_info_request(
    p: PatronInfoParamsValue,
    date: Seq<char>,
) -> MessageValue {
    MessageValue {
        entry: catalog::Message::patron_info_spec(),
        fixed_fields: seq![
            FixedFieldValue { entry: catalog::ffspec("language"@, 3), value: "000"@ },
            FixedFieldValue { entry: catalog::ffspec("transaction date"@, 18), value: date },
            FixedFieldValue { entry: catalog::ffspec("summary"@, 10), value: spec_summary(
                p.summary,
            ) },
        ],
        fields: seq![FieldValue { code: "AA"@, value: p.patron_id }] + opt_field(
            "AO"@,
            p.institution,
        ) + opt_field("AD"@, p.patron_pwd) + opt_field("AC"@, p.terminal_pwd) + opt_num_field(
            "BP"@,
            p.start_item,
        ) + opt_num_field("BQ"@, p.end_item),
    }
}

/// Builds the patron-information request message.  The date must be the
/// protocol's 18-character representation.
pub fn patron_info_request(params: &PatronInfoParams, date: &str) -> (r: Result<Message, Error>)
    ensures
        r is Ok <==> date@.len() == 18,
        r is Ok ==> r.unwrap()@ == spec_patron_info_request(params@, date@),
        r is Ok ==> r.unwrap()@.wf(),
        r is Err ==> r->Err_0 == Error::FixedFieldLengthError,
{
    let entry = catalog::Message::patron_info();
    proof {
        reveal_strlit("000");
        catalog::lemma_message_view_fields(&entry);
    }
    let mut ffs: Vec<FixedField> = Vec::new();
    ffs.push(must_fixed(&entry.fixed_fields[0], "000"));
    let d = match FixedField::new(&entry.fixed_fields[1], date) {
        Ok(f) => f,
        Err(e) => {
            return Err(e);
        },
    };
    ffs.push(d);
    let summary = summary_string(params.summary);
    ffs.push(must_fixed(&entry.fixed_fields[2], summary.as_str()));
    let mut fields: Vec<Field> = Vec::new();
    fields.push(Field::new("AA", params.patron_id.as_str()));
    let ghost base0 = field_value_views(fields@);
    match &params.institution {
        Some(v) => {
            fields.push(Field::new("AO", v.as_str()));
            proof {
                assert(field_value_views(fields@) =~= base0 + opt_field("AO"@, params@.institution));
            }
        },
        None => {
            proof {
                assert(field_value_views(fields@) =~= base0 + opt_field("AO"@, params@.institution));
            }
        },
    }
    let ghost base1 = field_value_views(fields@);
    match &params.patron_pwd {
        Some(v) => {
            fields.push(Field::new("AD", v.as_str()));
            proof {
                assert(field_value_views(fields@) =~= base1 + opt_field("AD"@, params@.patron_pwd));
            }
        },
        None => {
            proof {
                assert(field_value_views(fields@) =~= base1 + opt_field("AD"@, params@.patron_pwd));
            }
        },
    }
    let ghost base2 = field_value_views(fields@);
    match &params.terminal_pwd {
        Some(v) => {
            fields.push(Field::new("AC", v.as_str()));
            proof {
                assert(field_value_views(fields@) =~= base2 + opt_field(
                    "AC"@,
                    params@.terminal_pwd,
                ));
            }
        },
        None => {
            proof {
                assert(field_value_views(fields@) =~= base2 + opt_field(
                    "AC"@,
                    params@.terminal_pwd,
                ));
            }
        },
    }
    let ghost base3 = field_value_views(fields@);
    match params.start_item {
        Some(v) => {
            let num = util::decimal_string(v);
            fields.push(Field::new("BP", num.as_str()));
            proof {
                assert(field_value_views(fields@) =~= base3 + opt_num_field(
                    "BP"@,
                    params@.start_item,
                ));
            }
        },
        None => {
            proof {
                assert(field_value_views(fields@) =~= base3 + opt_num_field(
                    "BP"@,
                    params@.start_item,
                ));
            }
        },
    }
    let ghost base4 = field_value_views(fields@);
    match params.end_item {
        Some(v) => {
            let num = util::decimal_string(v);
            fields.push(Field::new("BQ", num.as_str()));
            proof {
                assert(field_value_views(fields@) =~= base4 + opt_num_field(
                    "BQ"@,
                    params@.end_item,
                ));
            }
        },
        None => {
            proof {
                assert(field_value_views(fields@) =~= base4 + opt_num_field(
                    "BQ"@,
                    params@.end_item,
                ));
            }
        },
    }
    let r = Message::new(&entry, ffs, fields);
    proof {
        assert(r@.fixed_fields =~= spec_patron_info_request(params@, date@).fixed_fields);
        assert(base0 =~= seq![FieldValue { code: "AA"@, value: params@.patron_id }]);
        assert(r@ =~= spec_patron_info_request(params@, date@));
    }
    Ok(r)
}

// ------------------------------------------------------------------
// Item information
// ------------------------------------------------------------------

/// The item-information request: the transaction date as its only fixed
/// field; the item id and any optional credentials as variable fields.
pub open spec fn spec_item_info_request(p: ItemInfoParamsValue, date: Seq<char>) -> MessageValue {
    MessageValue {
        entry: catalog::Message::item_info_spec(),
        fixed_fields: seq![
            FixedFieldValue { entry: catalog::ffspec("transaction date"@, 18), value: date },
        ],
        fields: seq![FieldValue { code: "AB"@, value: p.item_id }] + opt_field(
            "AO"@,
            p.institution,
        ) + opt_field("AC"@, p.terminal_pwd),
    }
}

/// Builds the item-information request message.  The date must be the
/// protocol's 18-character representation.
pub fn item_info_request(params: &ItemInfoParams, date: &str) -> (r: Result<Message, Error>)
    ensures
        r is Ok <==> date@.len() == 18,
        r is Ok ==> r.unwrap()@ == spec_item_info_request(params@, date@),
        r is Ok ==> r.unwrap()@.wf(),
        r is Err ==> r->Err_0 == Error::FixedFieldLengthError,
{
    let entry = catalog::Message::item_info();
    proof {
        catalog::lemma_message_view_fields(&entry);
    }
    let d = match FixedField::new(&entry.fixed_fields[0], date) {
        Ok(f) => f,
        Err(e) => {
            return Err(e);
        },
    };
    let mut ffs: Vec<FixedField> = Vec::new();
    ffs.push(d);
    let mut fields: Vec<Field> = Vec::new();
    fields.push(Field::new("AB", params.item_id.as_str()));
    let ghost base0 = field_value_views(fields@);
    match &params.institution {
        Some(v) => {
            fields.push(Field::new("AO", v.as_str()));
            proof {
                assert(field_value_views(fields@) =~= base0 + opt_field("AO"@, params@.institution));
            }
        },
        None => {
            proof {
                assert(field_value_views(fields@) =~= base0 + opt_field("AO"@, params@.institution));
            }
        },
    }
    let ghost base1 = field_value_views(fields@);
    match &params.terminal_pwd {
        Some(v) => {
            fields.push(Field::new("AC", v.as_str()));
            proof {
                assert(field_value_views(fields@) =~= base1 + opt_field(
                    "AC"@,
                    params@.terminal_pwd,
                ));
            }
        },
        None => {
            proof {
                assert(field_value_views(fields@) =~= base1 + opt_field(
                    "AC"@,
                    params@.terminal_pwd,
                ));
            }
        },
    }
    let r = Message::new(&entry, ffs, fields);
    proof {
        assert(r@.fixed_fields =~= spec_item_info_request(params@, date@).fixed_fields);
        assert(base0 =~= seq![FieldValue { code: "AB"@, value: params@.item_id }]);
        assert(r@ =~= spec_item_info_request(params@, date@));
    }
    Ok(r)
}

/// Success for item information: the title field (code "AJ") is present and
/// non-empty.  The protocol defines no explicit "not found" indicator, so an
/// absent or empty title is the only available signal.
pub open spec fn spec_item_info_ok(m: MessageValue) -> bool {
    match first_field_value(m.fields, "AJ"@) {
        Some(v) => v.len() > 0,
        None => false,
    }
}

/// Reads the item-information verdict off a decoded response.
pub fn item_info_ok(resp: &Message) -> (r: bool)
    ensures
        r == spec_item_info_ok(resp@),
{
    match resp.get_field_value("AJ") {
        Some(v) => v.as_str().unicode_len() > 0,
        None => false,
    }
}

} // verus!
