//! Parameter sets for the transaction layer, a builder for capturing them,
//! and the response wrapper that pairs a decoded message with its derived
//! "ok" flag.
//!
//! Each transaction call takes one fresh parameter value; nothing is shared
//! or reused across calls, so a stale value can never leak into an unrelated
//! later transaction.

use vstd::prelude::*;
use vstd::pervasive::unreached;

use crate::message::Message;
use crate::message::MessageValue;
use crate::message::first_field_value;

verus! {

/// The view of an optional string.
pub open spec fn opt_view(o: Option<String>) -> Option<Seq<char>> {
    match o {
        Some(s) => Some(s@),
        None => None,
    }
}

/// Model of the login parameters.
#[verifier::ext_equal]
pub ghost struct LoginParamsValue {
    pub username: Seq<char>,
    pub password: Seq<char>,
    pub location: Option<Seq<char>>,
}

/// Parameters for a login request: SIP account credentials and an optional
/// location code.
pub struct LoginParams {
    pub username: String,
    pub password: String,
    pub location: Option<String>,
}

impl View for LoginParams {
    type V = LoginParamsValue;

    open spec fn view(&self) -> LoginParamsValue {
        LoginParamsValue {
            username: self.username@,
            password: self.password@,
            location: opt_view(self.location),
        }
    }
}

impl LoginParams {
    /// Captures the required credentials; the location stays unset.
    pub fn new(username: &str, password: &str) -> (r: LoginParams)
        ensures
            r@ == (LoginParamsValue {
                username: username@,
                password: password@,
                location: None,
            }),
    {
        LoginParams {
            username: username.to_owned(),
            password: password.to_owned(),
            location: None,
        }
    }

    /// The SIP account name.
    pub fn sip_user(&self) -> (r: &str)
        ensures
            r@ == self@.username,
    {
        self.username.as_str()
    }

    /// The SIP account password.
    pub fn sip_pass(&self) -> (r: &str)
        ensures
            r@ == self@.password,
    {
        self.password.as_str()
    }

    /// The optional location code.
    pub fn location(&self) -> (r: Option<&str>)
        ensures
            r is Some <==> self@.location is Some,
            r is Some ==> Some(r.unwrap()@) == self@.location,
    {
        match &self.location {
            Some(l) => Some(l.as_str()),
            None => None,
        }
    }
}

/// Model of the item-information parameters.
#[verifier::ext_equal]
pub ghost struct ItemInfoParamsValue {
    pub item_id: Seq<char>,
    pub institution: Option<Seq<char>>,
    pub terminal_pwd: Option<Seq<char>>,
}

/// Parameters for an item-information request.
pub struct ItemInfoParams {
    pub item_id: String,
    pub institution: Option<String>,
    pub terminal_pwd: Option<String>,
}

impl View for ItemInfoParams {
    type V = ItemInfoParamsValue;

    open spec fn view(&self) -> ItemInfoParamsValue {
        ItemInfoParamsValue {
            item_id: self.item_id@,
            institution: opt_view(self.institution),
            terminal_pwd: opt_view(self.terminal_pwd),
        }
    }
}

impl ItemInfoParams {
    /// Captures the required item id; the optional fields stay unset.
    pub fn new(item_id: &str) -> (r: ItemInfoParams)
        ensures
            r@ == (ItemInfoParamsValue {
                item_id: item_id@,
                institution: None,
                terminal_pwd: None,
            }),
    {
        ItemInfoParams { item_id: item_id.to_owned(), institution: None, terminal_pwd: None }
    }
}

/// Model of the patron-status parameters.
#[verifier::ext_equal]
pub ghost struct PatronStatusParamsValue {
    pub patron_id: Seq<char>,
    pub patron_pwd: Option<Seq<char>>,
    pub institution: Option<Seq<char>>,
    pub terminal_pwd: Option<Seq<char>>,
}

/// Parameters for a patron-status request.
pub struct PatronStatusParams {
    pub patron_id: String,
    pub patron_pwd: Option<String>,
    pub institution: Option<String>,
    pub terminal_pwd: Option<String>,
}

impl View for PatronStatusParams {
    type V = PatronStatusParamsValue;

    open spec fn view(&self) -> PatronStatusParamsValue {
        PatronStatusParamsValue {
            patron_id: self.patron_id@,
            patron_pwd: opt_view(self.patron_pwd),
            institution: opt_view(self.institution),
            terminal_pwd: opt_view(self.terminal_pwd),
        }
    }
}

impl PatronStatusParams {
    /// Captures the required patron id; the optional fields stay unset.
    pub fn new(patron_id: &str) -> (r: PatronStatusParams)
        ensures
            r@ == (PatronStatusParamsValue {
                patron_id: patron_id@,
                patron_pwd: None,
                institution: None,
                terminal_pwd: None,
            }),
    {
        PatronStatusParams {
            patron_id: patron_id.to_owned(),
            patron_pwd: None,
            institution: None,
            terminal_pwd: None,
        }
    }
}

/// Model of the patron-information parameters.
#[verifier::ext_equal]
pub ghost struct PatronInfoParamsValue {
    pub patron_id: Seq<char>,
    pub patron_pwd: Option<Seq<char>>,
    pub summary: Option<usize>,
    pub institution: Option<Seq<char>>,
    pub terminal_pwd: Option<Seq<char>>,
    pub start_item: Option<usize>,
    pub end_item: Option<usize>,
}

/// Parameters for a patron-information request.
pub struct PatronInfoParams {
    pub patron_id: String,
    pub patron_pwd: Option<String>,
    /// Which zero-based position (if any) of the 10-character summary field
    /// should be set to 'Y' (activated).  Only one position may be activated
    /// per message; an out-of-range index is silently ignored.
    pub summary: Option<usize>,
    pub institution: Option<String>,
    pub terminal_pwd: Option<String>,
    pub start_item: Option<usize>,
    pub end_item: Option<usize>,
}

impl View for PatronInfoParams {
    type V = PatronInfoParamsValue;

    open spec fn view(&self) -> PatronInfoParamsValue {
        PatronInfoParamsValue {
            patron_id: self.patron_id@,
            patron_pwd: opt_view(self.patron_pwd),
            summary: self.summary,
            institution: opt_view(self.institution),
            terminal_pwd: opt_view(self.terminal_pwd),
            start_item: self.start_item,
            end_item: self.end_item,
        }
    }
}

impl PatronInfoParams {
    /// Captures the required patron id; the optional fields stay unset.
    pub fn new(patron_id: &str) -> (r: PatronInfoParams)
        ensures
            r@ == (PatronInfoParamsValue {
                patron_id: patron_id@,
                patron_pwd: None,
                summary: None,
                institution: None,
                terminal_pwd: None,
                start_item: None,
                end_item: None,
            }),
    {
        PatronInfoParams {
            patron_id: patron_id.to_owned(),
            patron_pwd: None,
            summary: None,
            institution: None,
            terminal_pwd: None,
            start_item: None,
            end_item: None,
        }
    }
}

/// Model of the parameter builder.
#[verifier::ext_equal]
pub ghost struct ParamBuilderValue {
    pub institution: Option<Seq<char>>,
    pub terminal_pwd: Option<Seq<char>>,
    pub sip_user: Option<Seq<char>>,
    pub sip_pass: Option<Seq<char>>,
    pub location: Option<Seq<char>>,
    pub patron_id: Option<Seq<char>>,
    pub patron_pwd: Option<Seq<char>>,
    pub item_id: Option<Seq<char>>,
    pub start_item: Option<usize>,
    pub end_item: Option<usize>,
    pub summary: Option<usize>,
}

/// Captures any mix of request parameters one value at a time, to be turned
/// into one fresh parameter set per transaction call.
pub struct ParamBuilder {
    institution: Option<String>,
    terminal_pwd: Option<String>,
    sip_user: Option<String>,
    sip_pass: Option<String>,
    location: Option<String>,
    patron_id: Option<String>,
    patron_pwd: Option<String>,
    item_id: Option<String>,
    start_item: Option<usize>,
    end_item: Option<usize>,
    summary: Option<usize>,
}

impl View for ParamBuilder {
    type V = ParamBuilderValue;

    closed spec fn view(&self) -> ParamBuilderValue {
        ParamBuilderValue {
            institution: opt_view(self.institution),
            terminal_pwd: opt_view(self.terminal_pwd),
            sip_user: opt_view(self.sip_user),
            sip_pass: opt_view(self.sip_pass),
            location: opt_view(self.location),
            patron_id: opt_view(self.patron_id),
            patron_pwd: opt_view(self.patron_pwd),
            item_id: opt_view(self.item_id),
            start_item: self.start_item,
            end_item: self.end_item,
            summary: self.summary,
        }
    }
}

impl ParamBuilder {
    /// An empty builder: every parameter unset.
    pub fn new() -> (r: ParamBuilder)
        ensures
            r@ == (ParamBuilderValue {
                institution: None,
                terminal_pwd: None,
                sip_user: None,
                sip_pass: None,
                location: None,
                patron_id: None,
                patron_pwd: None,
                item_id: None,
                start_item: None,
                end_item: None,
                summary: None,
            }),
    {
        ParamBuilder {
            institution: None,
            terminal_pwd: None,
            sip_user: None,
            sip_pass: None,
            location: None,
            patron_id: None,
            patron_pwd: None,
            item_id: None,
            start_item: None,
            end_item: None,
            summary: None,
        }
    }

    /// Sets the institution id.
    pub fn set_institution(&mut self, value: &str)
        ensures
            final(self)@ == (ParamBuilderValue { institution: Some(value@), ..old(self)@ }),
    {
        self.institution = Some(value.to_owned());
    }

    /// Sets the terminal password.
    pub fn set_terminal_pwd(&mut self, value: &str)
        ensures
            final(self)@ == (ParamBuilderValue { terminal_pwd: Some(value@), ..old(self)@ }),
    {
        self.terminal_pwd = Some(value.to_owned());
    }

    /// Sets the SIP account name.
    pub fn set_sip_user(&mut self, value: &str)
        ensures
            final(self)@ == (ParamBuilderValue { sip_user: Some(value@), ..old(self)@ }),
    {
        self.sip_user = Some(value.to_owned());
    }

    /// Sets the SIP account password.
    pub fn set_sip_pass(&mut self, value: &str)
        ensures
            final(self)@ == (ParamBuilderValue { sip_pass: Some(value@), ..old(self)@ }),
    {
        self.sip_pass = Some(value.to_owned());
    }

    /// Sets the location code.
    pub fn set_location(&mut self, value: &str)
        ensures
            final(self)@ == (ParamBuilderValue { location: Some(value@), ..old(self)@ }),
    {
        self.location = Some(value.to_owned());
    }

    /// Sets the patron id.
    pub fn set_patron_id(&mut self, value: &str)
        ensures
            final(self)@ == (ParamBuilderValue { patron_id: Some(value@), ..old(self)@ }),
    {
        self.patron_id = Some(value.to_owned());
    }

    /// Sets the patron password.
    pub fn set_patron_pwd(&mut self, value: &str)
        ensures
            final(self)@ == (ParamBuilderValue { patron_pwd: Some(value@), ..old(self)@ }),
    {
        self.patron_pwd = Some(value.to_owned());
    }

    /// Sets the item id.
    pub fn set_item_id(&mut self, value: &str)
        ensures
            final(self)@ == (ParamBuilderValue { item_id: Some(value@), ..old(self)@ }),
    {
        self.item_id = Some(value.to_owned());
    }

    /// Sets the pagination start index.
    pub fn set_start_item(&mut self, value: usize)
        ensures
            final(self)@ == (ParamBuilderValue { start_item: Some(value), ..old(self)@ }),
    {
        self.start_item = Some(value);
    }

    /// Sets the pagination end index.
    pub fn set_end_item(&mut self, value: usize)
        ensures
            final(self)@ == (ParamBuilderValue { end_item: Some(value), ..old(self)@ }),
    {
        self.end_item = Some(value);
    }

    /// Sets the zero-based summary position to activate.
    pub fn set_summary(&mut self, value: usize)
        ensures
            final(self)@ == (ParamBuilderValue { summary: Some(value), ..old(self)@ }),
    {
        self.summary = Some(value);
    }

    /// Builds one fresh login parameter set.  The SIP account name and
    /// password must have been captured.
    pub fn to_login(&self) -> (r: LoginParams)
        requires
            self@.sip_user is Some,
            self@.sip_pass is Some,
        ensures
            r@ == (LoginParamsValue {
                username: self@.sip_user->Some_0,
                password: self@.sip_pass->Some_0,
                location: self@.location,
            }),
    {
        let username = match &self.sip_user {
            Some(u) => u.clone(),
            None => unreached(),
        };
        let password = match &self.sip_pass {
            Some(p) => p.clone(),
            None => unreached(),
        };
        let location = match &self.location {
            Some(l) => Some(l.clone()),
            None => None,
        };
        LoginParams { username, password, location }
    }
}

/// Model of a response: the decoded message and the derived "ok" flag.
#[verifier::ext_equal]
pub ghost struct SipResponseValue {
    pub msg: MessageValue,
    pub ok: bool,
}

/// A decoded response message together with a simple "ok" flag.
///
/// What counts as success varies per request type (see the transaction
/// layer) and may not match the caller's requirements; the full message
/// stays available for inspection.
pub struct SipResponse {
    msg: Message,
    ok: bool,
}

impl View for SipResponse {
    type V = SipResponseValue;

    closed spec fn view(&self) -> SipResponseValue {
        SipResponseValue { msg: self.msg@, ok: self.ok }
    }
}

impl SipResponse {
    /// Pairs a decoded message with its derived flag.
    pub fn new(msg: Message, ok: bool) -> (r: SipResponse)
        ensures
            r@ == (SipResponseValue { msg: msg@, ok }),
    {
        SipResponse { msg, ok }
    }

    /// The derived "ok" flag.
    pub fn ok(&self) -> (r: bool)
        ensures
            r == self@.ok,
    {
        self.ok
    }

    /// The full response message.
    pub fn msg(&self) -> (r: &Message)
        ensures
            r@ == self@.msg,
    {
        &self.msg
    }

    /// The value of the first variable field with the given code, if any.
    pub fn value(&self, code: &str) -> (r: Option<String>)
        ensures
            r is Some <==> first_field_value(self@.msg.fields, code@) is Some,
            r is Some ==> Some(r.unwrap()@) == first_field_value(self@.msg.fields, code@),
    {
        self.msg.get_field_value(code)
    }
}

} // verus!
