//! The static protocol catalog: every known message type with its ordered
//! fixed-field shape, and the known variable-field codes with their labels.
//! The tables are read-only; lookups never mutate anything.

use vstd::prelude::*;

use crate::util::str_eq;

verus! {

/// Model of one fixed-field slot: a human label and the exact number of
/// characters the field occupies on the wire.
#[verifier::ext_equal]
pub ghost struct FixedFieldSpec {
    pub label: Seq<char>,
    pub length: nat,
}

/// Model of one variable-field catalog entry: a 2-character code and a label.
#[verifier::ext_equal]
pub ghost struct FieldSpec {
    pub code: Seq<char>,
    pub label: Seq<char>,
}

/// Model of one message type: its 2-character code, a label, and the ordered
/// fixed-field shape.
#[verifier::ext_equal]
pub ghost struct MessageSpec {
    pub code: Seq<char>,
    pub label: Seq<char>,
    pub fixed_fields: Seq<FixedFieldSpec>,
}

/// One fixed-field slot of a message shape.
#[derive(Debug)]
pub struct FixedField {
    pub label: String,
    pub length: usize,
}

impl View for FixedField {
    type V = FixedFieldSpec;

    open spec fn view(&self) -> FixedFieldSpec {
        FixedFieldSpec { label: self.label@, length: self.length as nat }
    }
}

impl Clone for FixedField {
    fn clone(&self) -> (r: Self)
        ensures
            r@ == self@,
    {
        FixedField { label: self.label.clone(), length: self.length }
    }
}

/// One variable-field catalog entry.
#[derive(Debug)]
pub struct Field {
    pub code: String,
    pub label: String,
}

impl View for Field {
    type V = FieldSpec;

    open spec fn view(&self) -> FieldSpec {
        FieldSpec { code: self.code@, label: self.label@ }
    }
}

impl Clone for Field {
    fn clone(&self) -> (r: Self)
        ensures
            r@ == self@,
    {
        Field { code: self.code.clone(), label: self.label.clone() }
    }
}

/// One message type of the protocol.
#[derive(Debug)]
pub struct Message {
    pub code: String,
    pub label: String,
    pub fixed_fields: Vec<FixedField>,
}

/// The views of a sequence of fixed-field slots.
pub open spec fn fixed_field_views(s: Seq<FixedField>) -> Seq<FixedFieldSpec> {
    s.map_values(|f: FixedField| f@)
}

impl View for Message {
    type V = MessageSpec;

    open spec fn view(&self) -> MessageSpec {
        MessageSpec {
            code: self.code@,
            label: self.label@,
            fixed_fields: fixed_field_views(self.fixed_fields@),
        }
    }
}

impl Clone for Message {
    fn clone(&self) -> (r: Self)
        ensures
            r@ == self@,
    {
        let mut ff: Vec<FixedField> = Vec::new();
        let mut i: usize = 0;
        while i < self.fixed_fields.len()
            invariant
                i <= self.fixed_fields.len(),
                ff@.len() == i,
                forall|j: int| 0 <= j < i ==> ff@[j]@ == self.fixed_fields@[j]@,
            decreases self.fixed_fields.len() - i,
        {
            ff.push(self.fixed_fields[i].clone());
            i += 1;
        }
        let r = Message { code: self.code.clone(), label: self.label.clone(), fixed_fields: ff };
        proof {
            assert(r@.fixed_fields =~= self@.fixed_fields);
            assert(r@ =~= self@);
        }
        r
    }
}

/// The fixed-field slots of a message shape, seen element by element: the
/// executable vector matches the model one to one.
pub proof fn lemma_message_view_fields(m: &Message)
    ensures
        m.fixed_fields@.len() == m@.fixed_fields.len(),
        forall|i: int|
            0 <= i < m.fixed_fields@.len() ==> (#[trigger] m.fixed_fields@[i])@
                == m@.fixed_fields[i],
{
}

/// Short form for a fixed-field model.
pub open spec fn ffspec(label: Seq<char>, length: nat) -> FixedFieldSpec {
    FixedFieldSpec { label, length }
}

/// Builds one fixed-field slot.
fn ff(label: &str, length: usize) -> (r: FixedField)
    ensures
        r@ == ffspec(label@, length as nat),
{
    FixedField { label: label.to_owned(), length }
}

impl Message {
    /// The shape of the SC Status message.
    pub open spec fn sc_status_spec() -> MessageSpec {
        MessageSpec {
            code: "99"@,
            label: "SC Status"@,
            fixed_fields: seq![
                ffspec("status code"@, 1),
                ffspec("max print width"@, 3),
                ffspec("protocol version"@, 4),
            ],
        }
    }

    /// The shape of the ACS Status message.
    pub open spec fn acs_status_spec() -> MessageSpec {
        MessageSpec {
            code: "98"@,
            label: "ACS Status"@,
            fixed_fields: seq![
                ffspec("on-line status"@, 1),
                ffspec("checkin ok"@, 1),
                ffspec("checkout ok"@, 1),
                ffspec("acs renewal policy"@, 1),
                ffspec("status update ok"@, 1),
                ffspec("offline ok"@, 1),
                ffspec("timeout period"@, 3),
                ffspec("retries allowed"@, 3),
                ffspec("date/time sync"@, 18),
                ffspec("protocol version"@, 4),
            ],
        }
    }

    /// The shape of the Login Request message.
    pub open spec fn login_spec() -> MessageSpec {
        MessageSpec {
            code: "93"@,
            label: "Login Request"@,
            fixed_fields: seq![
                ffspec("uid algorithm"@, 1),
                ffspec("pwd algorithm"@, 1),
            ],
        }
    }

    /// The shape of the Login Response message.
    pub open spec fn login_resp_spec() -> MessageSpec {
        MessageSpec {
            code: "94"@,
            label: "Login Response"@,
            fixed_fields: seq![
                ffspec("ok"@, 1),
            ],
        }
    }

    /// The shape of the Item Information Request message.
    pub open spec fn item_info_spec() -> MessageSpec {
        MessageSpec {
            code: "17"@,
            label: "Item Information Request"@,
            fixed_fields: seq![
                ffspec("transaction date"@, 18),
            ],
        }
    }

    /// The shape of the Item Information Response message.
    pub open spec fn item_info_resp_spec() -> MessageSpec {
        MessageSpec {
            code: "18"@,
            label: "Item Information Response"@,
            fixed_fields: seq![
                ffspec("circulation status"@, 2),
                ffspec("security marker"@, 2),
                ffspec("fee type"@, 2),
                ffspec("transaction date"@, 18),
            ],
        }
    }

    /// The shape of the Patron Status Request message.
    pub open spec fn patron_status_spec() -> MessageSpec {
        MessageSpec {
            code: "23"@,
            label: "Patron Status Request"@,
            fixed_fields: seq![
                ffspec("language"@, 3),
                ffspec("transaction date"@, 18),
            ],
        }
    }

    /// The shape of the Patron Status Response message.
    pub open spec fn patron_status_resp_spec() -> MessageSpec {
        MessageSpec {
            code: "24"@,
            label: "Patron Status Response"@,
            fixed_fields: seq![
                ffspec("patron status"@, 14),
                ffspec("language"@, 3),
                ffspec("transaction date"@, 18),
            ],
        }
    }

    /// The shape of the Patron Information message.
    pub open spec fn patron_info_spec() -> MessageSpec {
        MessageSpec {
            code: "63"@,
            label: "Patron Information"@,
            fixed_fields: seq![
                ffspec("language"@, 3),
                ffspec("transaction date"@, 18),
                ffspec("summary"@, 10),
            ],
        }
    }

    /// The shape of the Patron Information Response message.
    pub open spec fn patron_info_resp_spec() -> MessageSpec {
        MessageSpec {
            code: "64"@,
            label: "Patron Information Response"@,
            fixed_fields: seq![
                ffspec("patron status"@, 14),
                ffspec("language"@, 3),
                ffspec("transaction date"@, 18),
                ffspec("hold items count"@, 4),
                ffspec("overdue items count"@, 4),
                ffspec("charged items count"@, 4),
                ffspec("fine items count"@, 4),
                ffspec("recall items count"@, 4),
                ffspec("unavail holds count"@, 4),
            ],
        }
    }

    /// The shape of the Checkout Request message.
    pub open spec fn checkout_spec() -> MessageSpec {
        MessageSpec {
            code: "11"@,
            label: "Checkout Request"@,
            fixed_fields: seq![
                ffspec("sc renewal policy"@, 1),
                ffspec("no block"@, 1),
                ffspec("transaction date"@, 18),
                ffspec("nb due date"@, 18),
            ],
        }
    }

    /// The shape of the Checkout Response message.
    pub open spec fn checkout_resp_spec() -> MessageSpec {
        MessageSpec {
            code: "12"@,
            label: "Checkout Response"@,
            fixed_fields: seq![
                ffspec("ok"@, 1),
                ffspec("renewal ok"@, 1),
                ffspec("magnetic media"@, 1),
                ffspec("desensitize"@, 1),
                ffspec("transaction date"@, 18),
            ],
        }
    }

    /// The shape of the Renew Request message.
    pub open spec fn renew_spec() -> MessageSpec {
        MessageSpec {
            code: "29"@,
            label: "Renew Request"@,
            fixed_fields: seq![
                ffspec("third party allowed"@, 1),
                ffspec("no block"@, 1),
                ffspec("transaction date"@, 18),
                ffspec("nb due date"@, 18),
            ],
        }
    }

    /// The shape of the Renew All Request message.
    pub open spec fn renew_all_spec() -> MessageSpec {
        MessageSpec {
            code: "65"@,
            label: "Renew All Request"@,
            fixed_fields: seq![
                ffspec("transaction date"@, 18),
            ],
        }
    }

    /// The shape of the Renew All Response message.
    pub open spec fn renew_all_resp_spec() -> MessageSpec {
        MessageSpec {
            code: "66"@,
            label: "Renew All Response"@,
            fixed_fields: seq![
                ffspec("ok"@, 1),
                ffspec("renewed count"@, 4),
                ffspec("unrenewed count"@, 4),
                ffspec("transaction date"@, 18),
            ],
        }
    }

    /// The shape of the Checkin Request message.
    pub open spec fn checkin_spec() -> MessageSpec {
        MessageSpec {
            code: "09"@,
            label: "Checkin Request"@,
            fixed_fields: seq![
                ffspec("no block"@, 1),
                ffspec("transaction date"@, 18),
                ffspec("return date"@, 18),
            ],
        }
    }

    /// The shape of the Checkin Response message.
    pub open spec fn checkin_resp_spec() -> MessageSpec {
        MessageSpec {
            code: "10"@,
            label: "Checkin Response"@,
            fixed_fields: seq![
                ffspec("ok"@, 1),
                ffspec("resensitize"@, 1),
                ffspec("magnetic media"@, 1),
                ffspec("alert"@, 1),
                ffspec("transaction date"@, 18),
            ],
        }
    }

    /// The shape of the Hold Request message.
    pub open spec fn hold_spec() -> MessageSpec {
        MessageSpec {
            code: "15"@,
            label: "Hold Request"@,
            fixed_fields: seq![
                ffspec("hold mode"@, 1),
                ffspec("transaction date"@, 18),
            ],
        }
    }

    /// The shape of the Hold Response message.
    pub open spec fn hold_resp_spec() -> MessageSpec {
        MessageSpec {
            code: "16"@,
            label: "Hold Response"@,
            fixed_fields: seq![
                ffspec("ok"@, 1),
                ffspec("hold available"@, 1),
                ffspec("transaction date"@, 18),
            ],
        }
    }

    /// The shape of the Fee Paid message.
    pub open spec fn fee_paid_spec() -> MessageSpec {
        MessageSpec {
            code: "37"@,
            label: "Fee Paid"@,
            fixed_fields: seq![
                ffspec("transaction date"@, 18),
                ffspec("fee type"@, 2),
                ffspec("payment type"@, 2),
                ffspec("currency type"@, 3),
            ],
        }
    }

    /// The shape of the Fee Paid Response message.
    pub open spec fn fee_paid_resp_spec() -> MessageSpec {
        MessageSpec {
            code: "38"@,
            label: "Fee Paid Response"@,
            fixed_fields: seq![
                ffspec("payment accepted"@, 1),
                ffspec("transaction date"@, 18),
            ],
        }
    }

    /// Builds the SC Status message shape.
    pub fn sc_status() -> (r: Message)
        ensures
            r@ == Message::sc_status_spec(),
    {
        let mut f: Vec<FixedField> = Vec::new();
        f.push(ff("status code", 1));
        f.push(ff("max print width", 3));
        f.push(ff("protocol version", 4));
        let r = Message { code: "99".to_owned(), label: "SC Status".to_owned(), fixed_fields: f };
        proof {
            assert(r@.fixed_fields =~= Message::sc_status_spec().fixed_fields);
            assert(r@ =~= Message::sc_status_spec());
        }
        r
    }

    /// Builds the ACS Status message shape.
    pub fn acs_status() -> (r: Message)
        ensures
            r@ == Message::acs_status_spec(),
    {
        let mut f: Vec<FixedField> = Vec::new();
        f.push(ff("on-line status", 1));
        f.push(ff("checkin ok", 1));
        f.push(ff("checkout ok", 1));
        f.push(ff("acs renewal policy", 1));
        f.push(ff("status update ok", 1));
        f.push(ff("offline ok", 1));
        f.push(ff("timeout period", 3));
        f.push(ff("retries allowed", 3));
        f.push(ff("date/time sync", 18));
        f.push(ff("protocol version", 4));
        let r = Message { code: "98".to_owned(), label: "ACS Status".to_owned(), fixed_fields: f };
        proof {
            assert(r@.fixed_fields =~= Message::acs_status_spec().fixed_fields);
            assert(r@ =~= Message::acs_status_spec());
        }
        r
    }

    /// Builds the Login Request message shape.
    pub fn login() -> (r: Message)
        ensures
            r@ == Message::login_spec(),
    {
        let mut f: Vec<FixedField> = Vec::new();
        f.push(ff("uid algorithm", 1));
        f.push(ff("pwd algorithm", 1));
        let r = Message { code: "93".to_owned(), label: "Login Request".to_owned(), fixed_fields: f };
        proof {
            assert(r@.fixed_fields =~= Message::login_spec().fixed_fields);
            assert(r@ =~= Message::login_spec());
        }
        r
    }

    /// Builds the Login Response message shape.
    pub fn login_resp() -> (r: Message)
        ensures
            r@ == Message::login_resp_spec(),
    {
        let mut f: Vec<FixedField> = Vec::new();
        f.push(ff("ok", 1));
        let r = Message { code: "94".to_owned(), label: "Login Response".to_owned(), fixed_fields: f };
        proof {
            assert(r@.fixed_fields =~= Message::login_resp_spec().fixed_fields);
            assert(r@ =~= Message::login_resp_spec());
        }
        r
    }

    /// Builds the Item Information Request message shape.
    pub fn item_info() -> (r: Message)
        ensures
            r@ == Message::item_info_spec(),
    {
        let mut f: Vec<FixedField> = Vec::new();
        f.push(ff("transaction date", 18));
        let r = Message { code: "17".to_owned(), label: "Item Information Request".to_owned(), fixed_fields: f };
        proof {
            assert(r@.fixed_fields =~= Message::item_info_spec().fixed_fields);
            assert(r@ =~= Message::item_info_spec());
        }
        r
    }

    /// Builds the Item Information Response message shape.
    pub fn item_info_resp() -> (r: Message)
        ensures
            r@ == Message::item_info_resp_spec(),
    {
        let mut f: Vec<FixedField> = Vec::new();
        f.push(ff("circulation status", 2));
        f.push(ff("security marker", 2));
        f.push(ff("fee type", 2));
        f.push(ff("transaction date", 18));
        let r = Message { code: "18".to_owned(), label: "Item Information Response".to_owned(), fixed_fields: f };
        proof {
            assert(r@.fixed_fields =~= Message::item_info_resp_spec().fixed_fields);
            assert(r@ =~= Message::item_info_resp_spec());
        }
        r
    }

    /// Builds the Patron Status Request message shape.
    pub fn patron_status() -> (r: Message)
        ensures
            r@ == Message::patron_status_spec(),
    {
        let mut f: Vec<FixedField> = Vec::new();
        f.push(ff("language", 3));
        f.push(ff("transaction date", 18));
        let r = Message { code: "23".to_owned(), label: "Patron Status Request".to_owned(), fixed_fields: f };
        proof {
            assert(r@.fixed_fields =~= Message::patron_status_spec().fixed_fields);
            assert(r@ =~= Message::patron_status_spec());
        }
        r
    }

    /// Builds the Patron Status Response message shape.
    pub fn patron_status_resp() -> (r: Message)
        ensures
            r@ == Message::patron_status_resp_spec(),
    {
        let mut f: Vec<FixedField> = Vec::new();
        f.push(ff("patron status", 14));
        f.push(ff("language", 3));
        f.push(ff("transaction date", 18));
        let r = Message { code: "24".to_owned(), label: "Patron Status Response".to_owned(), fixed_fields: f };
        proof {
            assert(r@.fixed_fields =~= Message::patron_status_resp_spec().fixed_fields);
            assert(r@ =~= Message::patron_status_resp_spec());
        }
        r
    }

    /// Builds the Patron Information message shape.
    pub fn patron_info() -> (r: Message)
        ensures
            r@ == Message::patron_info_spec(),
    {
        let mut f: Vec<FixedField> = Vec::new();
        f.push(ff("language", 3));
        f.push(ff("transaction date", 18));
        f.push(ff("summary", 10));
        let r = Message { code: "63".to_owned(), label: "Patron Information".to_owned(), fixed_fields: f };
        proof {
            assert(r@.fixed_fields =~= Message::patron_info_spec().fixed_fields);
            assert(r@ =~= Message::patron_info_spec());
        }
        r
    }

    /// Builds the Patron Information Response message shape.
    pub fn patron_info_resp() -> (r: Message)
        ensures
            r@ == Message::patron_info_resp_spec(),
    {
        let mut f: Vec<FixedField> = Vec::new();
        f.push(ff("patron status", 14));
        f.push(ff("language", 3));
        f.push(ff("transaction date", 18));
        f.push(ff("hold items count", 4));
        f.push(ff("overdue items count", 4));
        f.push(ff("charged items count", 4));
        f.push(ff("fine items count", 4));
        f.push(ff("recall items count", 4));
        f.push(ff("unavail holds count", 4));
        let r = Message { code: "64".to_owned(), label: "Patron Information Response".to_owned(), fixed_fields: f };
        proof {
            assert(r@.fixed_fields =~= Message::patron_info_resp_spec().fixed_fields);
            assert(r@ =~= Message::patron_info_resp_spec());
        }
        r
    }

    /// Builds the Checkout Request message shape.
    pub fn checkout() -> (r: Message)
        ensures
            r@ == Message::checkout_spec(),
    {
        let mut f: Vec<FixedField> = Vec::new();
        f.push(ff("sc renewal policy", 1));
        f.push(ff("no block", 1));
        f.push(ff("transaction date", 18));
        f.push(ff("nb due date", 18));
        let r = Message { code: "11".to_owned(), label: "Checkout Request".to_owned(), fixed_fields: f };
        proof {
            assert(r@.fixed_fields =~= Message::checkout_spec().fixed_fields);
            assert(r@ =~= Message::checkout_spec());
        }
        r
    }

    /// Builds the Checkout Response message shape.
    pub fn checkout_resp() -> (r: Message)
        ensures
            r@ == Message::checkout_resp_spec(),
    {
        let mut f: Vec<FixedField> = Vec::new();
        f.push(ff("ok", 1));
        f.push(ff("renewal ok", 1));
        f.push(ff("magnetic media", 1));
        f.push(ff("desensitize", 1));
        f.push(ff("transaction date", 18));
        let r = Message { code: "12".to_owned(), label: "Checkout Response".to_owned(), fixed_fields: f };
        proof {
            assert(r@.fixed_fields =~= Message::checkout_resp_spec().fixed_fields);
            assert(r@ =~= Message::checkout_resp_spec());
        }
        r
    }

    /// Builds the Renew Request message shape.
    pub fn renew() -> (r: Message)
        ensures
            r@ == Message::renew_spec(),
    {
        let mut f: Vec<FixedField> = Vec::new();
        f.push(ff("third party allowed", 1));
        f.push(ff("no block", 1));
        f.push(ff("transaction date", 18));
        f.push(ff("nb due date", 18));
        let r = Message { code: "29".to_owned(), label: "Renew Request".to_owned(), fixed_fields: f };
        proof {
            assert(r@.fixed_fields =~= Message::renew_spec().fixed_fields);
            assert(r@ =~= Message::renew_spec());
        }
        r
    }

    /// Builds the Renew All Request message shape.
    pub fn renew_all() -> (r: Message)
        ensures
            r@ == Message::renew_all_spec(),
    {
        let mut f: Vec<FixedField> = Vec::new();
        f.push(ff("transaction date", 18));
        let r = Message { code: "65".to_owned(), label: "Renew All Request".to_owned(), fixed_fields: f };
        proof {
            assert(r@.fixed_fields =~= Message::renew_all_spec().fixed_fields);
            assert(r@ =~= Message::renew_all_spec());
        }
        r
    }

    /// Builds the Renew All Response message shape.
    pub fn renew_all_resp() -> (r: Message)
        ensures
            r@ == Message::renew_all_resp_spec(),
    {
        let mut f: Vec<FixedField> = Vec::new();
        f.push(ff("ok", 1));
        f.push(ff("renewed count", 4));
        f.push(ff("unrenewed count", 4));
        f.push(ff("transaction date", 18));
        let r = Message { code: "66".to_owned(), label: "Renew All Response".to_owned(), fixed_fields: f };
        proof {
            assert(r@.fixed_fields =~= Message::renew_all_resp_spec().fixed_fields);
            assert(r@ =~= Message::renew_all_resp_spec());
        }
        r
    }

    /// Builds the Checkin Request message shape.
    pub fn checkin() -> (r: Message)
        ensures
            r@ == Message::checkin_spec(),
    {
        let mut f: Vec<FixedField> = Vec::new();
        f.push(ff("no block", 1));
        f.push(ff("transaction date", 18));
        f.push(ff("return date", 18));
        let r = Message { code: "09".to_owned(), label: "Checkin Request".to_owned(), fixed_fields: f };
        proof {
            assert(r@.fixed_fields =~= Message::checkin_spec().fixed_fields);
            assert(r@ =~= Message::checkin_spec());
        }
        r
    }

    /// Builds the Checkin Response message shape.
    pub fn checkin_resp() -> (r: Message)
        ensures
            r@ == Message::checkin_resp_spec(),
    {
        let mut f: Vec<FixedField> = Vec::new();
        f.push(ff("ok", 1));
        f.push(ff("resensitize", 1));
        f.push(ff("magnetic media", 1));
        f.push(ff("alert", 1));
        f.push(ff("transaction date", 18));
        let r = Message { code: "10".to_owned(), label: "Checkin Response".to_owned(), fixed_fields: f };
        proof {
            assert(r@.fixed_fields =~= Message::checkin_resp_spec().fixed_fields);
            assert(r@ =~= Message::checkin_resp_spec());
        }
        r
    }

    /// Builds the Hold Request message shape.
    pub fn hold() -> (r: Message)
        ensures
            r@ == Message::hold_spec(),
    {
        let mut f: Vec<FixedField> = Vec::new();
        f.push(ff("hold mode", 1));
        f.push(ff("transaction date", 18));
        let r = Message { code: "15".to_owned(), label: "Hold Request".to_owned(), fixed_fields: f };
        proof {
            assert(r@.fixed_fields =~= Message::hold_spec().fixed_fields);
            assert(r@ =~= Message::hold_spec());
        }
        r
    }

    /// Builds the Hold Response message shape.
    pub fn hold_resp() -> (r: Message)
        ensures
            r@ == Message::hold_resp_spec(),
    {
        let mut f: Vec<FixedField> = Vec::new();
        f.push(ff("ok", 1));
        f.push(ff("hold available", 1));
        f.push(ff("transaction date", 18));
        let r = Message { code: "16".to_owned(), label: "Hold Response".to_owned(), fixed_fields: f };
        proof {
            assert(r@.fixed_fields =~= Message::hold_resp_spec().fixed_fields);
            assert(r@ =~= Message::hold_resp_spec());
        }
        r
    }

    /// Builds the Fee Paid message shape.
    pub fn fee_paid() -> (r: Message)
        ensures
            r@ == Message::fee_paid_spec(),
    {
        let mut f: Vec<FixedField> = Vec::new();
        f.push(ff("transaction date", 18));
        f.push(ff("fee type", 2));
        f.push(ff("payment type", 2));
        f.push(ff("currency type", 3));
        let r = Message { code: "37".to_owned(), label: "Fee Paid".to_owned(), fixed_fields: f };
        proof {
            assert(r@.fixed_fields =~= Message::fee_paid_spec().fixed_fields);
            assert(r@ =~= Message::fee_paid_spec());
        }
        r
    }

    /// Builds the Fee Paid Response message shape.
    pub fn fee_paid_resp() -> (r: Message)
        ensures
            r@ == Message::fee_paid_resp_spec(),
    {
        let mut f: Vec<FixedField> = Vec::new();
        f.push(ff("payment accepted", 1));
        f.push(ff("transaction date", 18));
        let r = Message { code: "38".to_owned(), label: "Fee Paid Response".to_owned(), fixed_fields: f };
        proof {
            assert(r@.fixed_fields =~= Message::fee_paid_resp_spec().fixed_fields);
            assert(r@ =~= Message::fee_paid_resp_spec());
        }
        r
    }

}


/// The catalog lookup: the message shape for a given 2-character code.
pub open spec fn message_spec_by_code(code: Seq<char>) -> Option<MessageSpec> {
    if code == "99"@ {
        Some(Message::sc_status_spec())
    } else if code == "98"@ {
        Some(Message::acs_status_spec())
    } else if code == "93"@ {
        Some(Message::login_spec())
    } else if code == "94"@ {
        Some(Message::login_resp_spec())
    } else if code == "17"@ {
        Some(Message::item_info_spec())
    } else if code == "18"@ {
        Some(Message::item_info_resp_spec())
    } else if code == "23"@ {
        Some(Message::patron_status_spec())
    } else if code == "24"@ {
        Some(Message::patron_status_resp_spec())
    } else if code == "63"@ {
        Some(Message::patron_info_spec())
    } else if code == "64"@ {
        Some(Message::patron_info_resp_spec())
    } else if code == "11"@ {
        Some(Message::checkout_spec())
    } else if code == "12"@ {
        Some(Message::checkout_resp_spec())
    } else if code == "29"@ {
        Some(Message::renew_spec())
    } else if code == "65"@ {
        Some(Message::renew_all_spec())
    } else if code == "66"@ {
        Some(Message::renew_all_resp_spec())
    } else if code == "09"@ {
        Some(Message::checkin_spec())
    } else if code == "10"@ {
        Some(Message::checkin_resp_spec())
    } else if code == "15"@ {
        Some(Message::hold_spec())
    } else if code == "16"@ {
        Some(Message::hold_resp_spec())
    } else if code == "37"@ {
        Some(Message::fee_paid_spec())
    } else if code == "38"@ {
        Some(Message::fee_paid_resp_spec())
    } else {
        None
    }
}

impl Message {
    /// Maps a 2-character message code to its message shape.
    pub fn from_code(code: &str) -> (r: Option<Message>)
        ensures
            r is Some <==> message_spec_by_code(code@) is Some,
            r is Some ==> r.unwrap()@ == message_spec_by_code(code@).unwrap(),
    {
        if str_eq(code, "99") {
            Some(Message::sc_status())
        } else if str_eq(code, "98") {
            Some(Message::acs_status())
        } else if str_eq(code, "93") {
            Some(Message::login())
        } else if str_eq(code, "94") {
            Some(Message::login_resp())
        } else if str_eq(code, "17") {
            Some(Message::item_info())
        } else if str_eq(code, "18") {
            Some(Message::item_info_resp())
        } else if str_eq(code, "23") {
            Some(Message::patron_status())
        } else if str_eq(code, "24") {
            Some(Message::patron_status_resp())
        } else if str_eq(code, "63") {
            Some(Message::patron_info())
        } else if str_eq(code, "64") {
            Some(Message::patron_info_resp())
        } else if str_eq(code, "11") {
            Some(Message::checkout())
        } else if str_eq(code, "12") {
            Some(Message::checkout_resp())
        } else if str_eq(code, "29") {
            Some(Message::renew())
        } else if str_eq(code, "65") {
            Some(Message::renew_all())
        } else if str_eq(code, "66") {
            Some(Message::renew_all_resp())
        } else if str_eq(code, "09") {
            Some(Message::checkin())
        } else if str_eq(code, "10") {
            Some(Message::checkin_resp())
        } else if str_eq(code, "15") {
            Some(Message::hold())
        } else if str_eq(code, "16") {
            Some(Message::hold_resp())
        } else if str_eq(code, "37") {
            Some(Message::fee_paid())
        } else if str_eq(code, "38") {
            Some(Message::fee_paid_resp())
        } else {
            None
        }
    }
}


/// The catalog lookup: the label for a known variable-field code.
pub open spec fn field_label_by_code(code: Seq<char>) -> Option<Seq<char>> {
    if code == "CN"@ {
        Some("login user id"@)
    } else if code == "CO"@ {
        Some("login password"@)
    } else if code == "AA"@ {
        Some("patron identifier"@)
    } else if code == "AB"@ {
        Some("item identifier"@)
    } else if code == "AC"@ {
        Some("terminal password"@)
    } else if code == "AD"@ {
        Some("patron password"@)
    } else if code == "AE"@ {
        Some("personal name"@)
    } else if code == "AF"@ {
        Some("screen message"@)
    } else if code == "AG"@ {
        Some("print line"@)
    } else if code == "AH"@ {
        Some("due date"@)
    } else if code == "AJ"@ {
        Some("title identifier"@)
    } else if code == "AL"@ {
        Some("blocked card msg"@)
    } else if code == "AM"@ {
        Some("library name"@)
    } else if code == "AN"@ {
        Some("terminal location"@)
    } else if code == "AO"@ {
        Some("institution id"@)
    } else if code == "AP"@ {
        Some("current location"@)
    } else if code == "AQ"@ {
        Some("permanent location"@)
    } else if code == "AS"@ {
        Some("hold items"@)
    } else if code == "AT"@ {
        Some("overdue items"@)
    } else if code == "AU"@ {
        Some("charged items"@)
    } else if code == "AV"@ {
        Some("fine items"@)
    } else if code == "AY"@ {
        Some("sequence number"@)
    } else if code == "AZ"@ {
        Some("checksum"@)
    } else if code == "BD"@ {
        Some("home address"@)
    } else if code == "BE"@ {
        Some("e-mail address"@)
    } else if code == "BF"@ {
        Some("home phone number"@)
    } else if code == "BG"@ {
        Some("owner"@)
    } else if code == "BH"@ {
        Some("currency type"@)
    } else if code == "BI"@ {
        Some("cancel"@)
    } else if code == "BK"@ {
        Some("transaction id"@)
    } else if code == "BL"@ {
        Some("valid patron"@)
    } else if code == "BM"@ {
        Some("renewed items"@)
    } else if code == "BN"@ {
        Some("unrenewed items"@)
    } else if code == "BO"@ {
        Some("fee acknowledged"@)
    } else if code == "BP"@ {
        Some("start item"@)
    } else if code == "BQ"@ {
        Some("end item"@)
    } else if code == "BR"@ {
        Some("queue position"@)
    } else if code == "BS"@ {
        Some("pickup location"@)
    } else if code == "BU"@ {
        Some("recall items"@)
    } else if code == "BT"@ {
        Some("fee type"@)
    } else if code == "CC"@ {
        Some("fee limit"@)
    } else if code == "BV"@ {
        Some("fee amount"@)
    } else if code == "BW"@ {
        Some("expiration date"@)
    } else if code == "BX"@ {
        Some("supported messages"@)
    } else if code == "BY"@ {
        Some("hold type"@)
    } else if code == "BZ"@ {
        Some("hold items limit"@)
    } else if code == "CA"@ {
        Some("overdue items limit"@)
    } else if code == "CB"@ {
        Some("charged items limit"@)
    } else if code == "CD"@ {
        Some("unavailable hold items"@)
    } else if code == "CF"@ {
        Some("hold queue length"@)
    } else if code == "CG"@ {
        Some("fee identifier"@)
    } else if code == "CH"@ {
        Some("item properties"@)
    } else if code == "CI"@ {
        Some("security inhibit"@)
    } else if code == "CJ"@ {
        Some("recall date"@)
    } else if code == "CK"@ {
        Some("media type"@)
    } else if code == "CL"@ {
        Some("sort bin"@)
    } else if code == "CM"@ {
        Some("hold pickup date"@)
    } else if code == "CP"@ {
        Some("location code"@)
    } else if code == "CQ"@ {
        Some("valid patron password"@)
    } else if code == "PI"@ {
        Some("patron internet profile"@)
    } else if code == "CS"@ {
        Some("call number"@)
    } else if code == "CR"@ {
        Some("collection code"@)
    } else if code == "CV"@ {
        Some("alert type"@)
    } else if code == "CY"@ {
        Some("hold patron id"@)
    } else if code == "DA"@ {
        Some("hold patron name"@)
    } else if code == "CT"@ {
        Some("destination location"@)
    } else if code == "PA"@ {
        Some("patron expire date"@)
    } else if code == "PB"@ {
        Some("patron birth date"@)
    } else if code == "PC"@ {
        Some("patron class"@)
    } else if code == "OR"@ {
        Some("register login"@)
    } else if code == "RN"@ {
        Some("check number"@)
    } else {
        None
    }
}

impl Field {
    /// Maps a 2-character variable-field code to its catalog entry.
    /// Lookup is advisory: a code absent from the catalog never blocks
    /// encode or decode.
    pub fn from_code(code: &str) -> (r: Option<Field>)
        ensures
            r is Some <==> field_label_by_code(code@) is Some,
            r is Some ==> r.unwrap()@ == (FieldSpec { code: code@, label: field_label_by_code(code@).unwrap() }),
    {
        if str_eq(code, "CN") {
            Some(Field { code: "CN".to_owned(), label: "login user id".to_owned() })
        } else if str_eq(code, "CO") {
            Some(Field { code: "CO".to_owned(), label: "login password".to_owned() })
        } else if str_eq(code, "AA") {
            Some(Field { code: "AA".to_owned(), label: "patron identifier".to_owned() })
        } else if str_eq(code, "AB") {
            Some(Field { code: "AB".to_owned(), label: "item identifier".to_owned() })
        } else if str_eq(code, "AC") {
            Some(Field { code: "AC".to_owned(), label: "terminal password".to_owned() })
        } else if str_eq(code, "AD") {
            Some(Field { code: "AD".to_owned(), label: "patron password".to_owned() })
        } else if str_eq(code, "AE") {
            Some(Field { code: "AE".to_owned(), label: "personal name".to_owned() })
        } else if str_eq(code, "AF") {
            Some(Field { code: "AF".to_owned(), label: "screen message".to_owned() })
        } else if str_eq(code, "AG") {
            Some(Field { code: "AG".to_owned(), label: "print line".to_owned() })
        } else if str_eq(code, "AH") {
            Some(Field { code: "AH".to_owned(), label: "due date".to_owned() })
        } else if str_eq(code, "AJ") {
            Some(Field { code: "AJ".to_owned(), label: "title identifier".to_owned() })
        } else if str_eq(code, "AL") {
            Some(Field { code: "AL".to_owned(), label: "blocked card msg".to_owned() })
        } else if str_eq(code, "AM") {
            Some(Field { code: "AM".to_owned(), label: "library name".to_owned() })
        } else if str_eq(code, "AN") {
            Some(Field { code: "AN".to_owned(), label: "terminal location".to_owned() })
        } else if str_eq(code, "AO") {
            Some(Field { code: "AO".to_owned(), label: "institution id".to_owned() })
        } else if str_eq(code, "AP") {
            Some(Field { code: "AP".to_owned(), label: "current location".to_owned() })
        } else if str_eq(code, "AQ") {
            Some(Field { code: "AQ".to_owned(), label: "permanent location".to_owned() })
        } else if str_eq(code, "AS") {
            Some(Field { code: "AS".to_owned(), label: "hold items".to_owned() })
        } else if str_eq(code, "AT") {
            Some(Field { code: "AT".to_owned(), label: "overdue items".to_owned() })
        } else if str_eq(code, "AU") {
            Some(Field { code: "AU".to_owned(), label: "charged items".to_owned() })
        } else if str_eq(code, "AV") {
            Some(Field { code: "AV".to_owned(), label: "fine items".to_owned() })
        } else if str_eq(code, "AY") {
            Some(Field { code: "AY".to_owned(), label: "sequence number".to_owned() })
        } else if str_eq(code, "AZ") {
            Some(Field { code: "AZ".to_owned(), label: "checksum".to_owned() })
        } else if str_eq(code, "BD") {
            Some(Field { code: "BD".to_owned(), label: "home address".to_owned() })
        } else if str_eq(code, "BE") {
            Some(Field { code: "BE".to_owned(), label: "e-mail address".to_owned() })
        } else if str_eq(code, "BF") {
            Some(Field { code: "BF".to_owned(), label: "home phone number".to_owned() })
        } else if str_eq(code, "BG") {
            Some(Field { code: "BG".to_owned(), label: "owner".to_owned() })
        } else if str_eq(code, "BH") {
            Some(Field { code: "BH".to_owned(), label: "currency type".to_owned() })
        } else if str_eq(code, "BI") {
            Some(Field { code: "BI".to_owned(), label: "cancel".to_owned() })
        } else if str_eq(code, "BK") {
            Some(Field { code: "BK".to_owned(), label: "transaction id".to_owned() })
        } else if str_eq(code, "BL") {
            Some(Field { code: "BL".to_owned(), label: "valid patron".to_owned() })
        } else if str_eq(code, "BM") {
            Some(Field { code: "BM".to_owned(), label: "renewed items".to_owned() })
        } else if str_eq(code, "BN") {
            Some(Field { code: "BN".to_owned(), label: "unrenewed items".to_owned() })
        } else if str_eq(code, "BO") {
            Some(Field { code: "BO".to_owned(), label: "fee acknowledged".to_owned() })
        } else if str_eq(code, "BP") {
            Some(Field { code: "BP".to_owned(), label: "start item".to_owned() })
        } else if str_eq(code, "BQ") {
            Some(Field { code: "BQ".to_owned(), label: "end item".to_owned() })
        } else if str_eq(code, "BR") {
            Some(Field { code: "BR".to_owned(), label: "queue position".to_owned() })
        } else if str_eq(code, "BS") {
            Some(Field { code: "BS".to_owned(), label: "pickup location".to_owned() })
        } else if str_eq(code, "BU") {
            Some(Field { code: "BU".to_owned(), label: "recall items".to_owned() })
        } else if str_eq(code, "BT") {
            Some(Field { code: "BT".to_owned(), label: "fee type".to_owned() })
        } else if str_eq(code, "CC") {
            Some(Field { code: "CC".to_owned(), label: "fee limit".to_owned() })
        } else if str_eq(code, "BV") {
            Some(Field { code: "BV".to_owned(), label: "fee amount".to_owned() })
        } else if str_eq(code, "BW") {
            Some(Field { code: "BW".to_owned(), label: "expiration date".to_owned() })
        } else if str_eq(code, "BX") {
            Some(Field { code: "BX".to_owned(), label: "supported messages".to_owned() })
        } else if str_eq(code, "BY") {
            Some(Field { code: "BY".to_owned(), label: "hold type".to_owned() })
        } else if str_eq(code, "BZ") {
            Some(Field { code: "BZ".to_owned(), label: "hold items limit".to_owned() })
        } else if str_eq(code, "CA") {
            Some(Field { code: "CA".to_owned(), label: "overdue items limit".to_owned() })
        } else if str_eq(code, "CB") {
            Some(Field { code: "CB".to_owned(), label: "charged items limit".to_owned() })
        } else if str_eq(code, "CD") {
            Some(Field { code: "CD".to_owned(), label: "unavailable hold items".to_owned() })
        } else if str_eq(code, "CF") {
            Some(Field { code: "CF".to_owned(), label: "hold queue length".to_owned() })
        } else if str_eq(code, "CG") {
            Some(Field { code: "CG".to_owned(), label: "fee identifier".to_owned() })
        } else if str_eq(code, "CH") {
            Some(Field { code: "CH".to_owned(), label: "item properties".to_owned() })
        } else if str_eq(code, "CI") {
            Some(Field { code: "CI".to_owned(), label: "security inhibit".to_owned() })
        } else if str_eq(code, "CJ") {
            Some(Field { code: "CJ".to_owned(), label: "recall date".to_owned() })
        } else if str_eq(code, "CK") {
            Some(Field { code: "CK".to_owned(), label: "media type".to_owned() })
        } else if str_eq(code, "CL") {
            Some(Field { code: "CL".to_owned(), label: "sort bin".to_owned() })
        } else if str_eq(code, "CM") {
            Some(Field { code: "CM".to_owned(), label: "hold pickup date".to_owned() })
        } else if str_eq(code, "CP") {
            Some(Field { code: "CP".to_owned(), label: "location code".to_owned() })
        } else if str_eq(code, "CQ") {
            Some(Field { code: "CQ".to_owned(), label: "valid patron password".to_owned() })
        } else if str_eq(code, "PI") {
            Some(Field { code: "PI".to_owned(), label: "patron internet profile".to_owned() })
        } else if str_eq(code, "CS") {
            Some(Field { code: "CS".to_owned(), label: "call number".to_owned() })
        } else if str_eq(code, "CR") {
            Some(Field { code: "CR".to_owned(), label: "collection code".to_owned() })
        } else if str_eq(code, "CV") {
            Some(Field { code: "CV".to_owned(), label: "alert type".to_owned() })
        } else if str_eq(code, "CY") {
            Some(Field { code: "CY".to_owned(), label: "hold patron id".to_owned() })
        } else if str_eq(code, "DA") {
            Some(Field { code: "DA".to_owned(), label: "hold patron name".to_owned() })
        } else if str_eq(code, "CT") {
            Some(Field { code: "CT".to_owned(), label: "destination location".to_owned() })
        } else if str_eq(code, "PA") {
            Some(Field { code: "PA".to_owned(), label: "patron expire date".to_owned() })
        } else if str_eq(code, "PB") {
            Some(Field { code: "PB".to_owned(), label: "patron birth date".to_owned() })
        } else if str_eq(code, "PC") {
            Some(Field { code: "PC".to_owned(), label: "patron class".to_owned() })
        } else if str_eq(code, "OR") {
            Some(Field { code: "OR".to_owned(), label: "register login".to_owned() })
        } else if str_eq(code, "RN") {
            Some(Field { code: "RN".to_owned(), label: "check number".to_owned() })
        } else {
            None
        }
    }
}


} // verus!
