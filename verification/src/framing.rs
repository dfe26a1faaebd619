//! The pure half of the transport framing.
//!
//! The transport owns the byte stream; what it writes and how it finds a
//! message boundary in what it read are computed and verified here.  A
//! message goes out as its wire text plus one terminator character,
//! optionally transliterated to ASCII; what comes back is cut at the first
//! terminator and decoded, and anything after the terminator is discarded.

use vstd::prelude::*;
use vstd::utf8::is_ascii_chars;

use crate::error::Error;
use crate::message::Message;
use crate::message::message_of_sip;
use crate::message::message_sip;
use crate::message::MessageValue;
use crate::util;

verus! {

/// What the transport writes for a message: its wire text and one
/// terminator character.
pub open spec fn framed_text(m: MessageValue) -> Seq<char> {
    message_sip(m).push('\r')
}

/// What deunicode's transliteration yields for a given string: a function
/// of the characters alone.
pub uninterp spec fn deunicoded(s: Seq<char>) -> Seq<char>;

/// Relies on `deunicode::deunicode`: the result is pure ASCII and depends
/// on the input characters alone, and text whose characters all lie below
/// 0x7F is returned unchanged.  (A character at or above 0x7F may make
/// nearby control characters transliterate away too, so nothing more is
/// assumed.)
#[verifier::external_body]
fn to_ascii(s: &str) -> (r: String)
    ensures
        r@ == deunicoded(s@),
        is_ascii_chars(r@),
        (forall|i: int| 0 <= i < s@.len() ==> (#[trigger] s@[i]) < '\u{7f}') ==> r@ == s@,
{
    deunicode::deunicode(s)
}

/// The text the transport sends for a message: the framed wire text,
/// transliterated to ASCII when ascii mode is on.
pub fn outbound_text(msg: &Message, ascii: bool) -> (r: String)
    ensures
        !ascii ==> r@ == framed_text(msg@),
        ascii ==> r@ == deunicoded(framed_text(msg@)),
        ascii ==> is_ascii_chars(r@),
        ascii && (forall|i: int|
            0 <= i < framed_text(msg@).len() ==> (#[trigger] framed_text(msg@)[i]) < '\u{7f}')
            ==> r@ == framed_text(msg@),
{
    let mut s = msg.to_sip();
    util::push_char(&mut s, '\r');
    if ascii {
        to_ascii(s.as_str())
    } else {
        s
    }
}

/// The text before the first terminator: all of it when none occurs.
pub open spec fn first_segment(s: Seq<char>) -> Seq<char>
    decreases s.len(),
{
    if s.len() == 0 {
        s
    } else if s[0] == '\r' {
        Seq::empty()
    } else {
        seq![s[0]] + first_segment(s.drop_first())
    }
}

/// The first segment is the prefix up to the first terminator.
proof fn lemma_first_segment(s: Seq<char>, k: int)
    requires
        0 <= k <= s.len(),
        forall|j: int| 0 <= j < k ==> s[j] != '\r',
        k < s.len() ==> s[k] == '\r',
    ensures
        first_segment(s) == s.take(k),
    decreases s.len(),
{
    if s.len() == 0 {
        assert(first_segment(s) =~= s.take(k));
    } else if k == 0 {
        assert(first_segment(s) =~= s.take(0));
    } else {
        lemma_first_segment(s.drop_first(), k - 1);
        assert(seq![s[0]] + s.drop_first().take(k - 1) =~= s.take(k));
    }
}

/// Interprets the text a blocking read accumulated.
///
/// Zero characters mean the peer sent nothing at all: that is
/// `NoResponseError`, never an empty message, and distinct from a transport
/// failure.  Otherwise the text up to the first terminator goes to the
/// decoder, and anything after the terminator (trailing garbage, buffered
/// leftovers) is discarded.
pub fn parse_response(text: &str) -> (r: Result<Message, Error>)
    ensures
        text@.len() == 0 <==> (r is Err && r->Err_0 == Error::NoResponseError),
        text@.len() > 0 ==> (r is Ok <==> message_of_sip(first_segment(text@)) is Some),
        r is Ok ==> r.unwrap()@ == message_of_sip(first_segment(text@))->Some_0,
        r is Ok ==> r.unwrap()@.wf(),
        text@.len() > 0 && r is Err ==> r->Err_0 == Error::MessageFormatError,
{
    let len = text.unicode_len();
    if len == 0 {
        return Err(Error::NoResponseError);
    }
    let mut k: usize = 0;
    while k < len && text.get_char(k) != '\r'
        invariant
            len == text@.len(),
            k <= len,
            forall|j: int| 0 <= j < k ==> text@[j] != '\r',
        decreases len - k,
    {
        k += 1;
    }
    proof {
        lemma_first_segment(text@, k as int);
    }
    let segment = text.substring_char(0, k);
    proof {
        assert(segment@ =~= text@.take(k as int));
    }
    Message::from_sip(segment)
}

} // verus!
