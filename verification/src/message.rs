//! Structured messages and the wire codec.
//!
//! A message is its catalog shape, an ordered list of fixed-field values that
//! matches the shape one to one, and an ordered list of variable fields.
//! `to_sip` renders the wire text; `from_sip` parses it back.  Both sides are
//! specified against the same mathematical description of the wire format.

use vstd::prelude::*;

use crate::catalog;
use crate::catalog::FixedFieldSpec;
use crate::catalog::MessageSpec;
use crate::error::Error;
use crate::util;

verus! {

// ------------------------------------------------------------------
// Models
// ------------------------------------------------------------------

/// Model of a fixed-field value: the slot it fills and the characters in it.
#[verifier::ext_equal]
pub ghost struct FixedFieldValue {
    pub entry: FixedFieldSpec,
    pub value: Seq<char>,
}

impl FixedFieldValue {
    /// The permanent invariant: the value fills its slot exactly.
    pub open spec fn wf(self) -> bool {
        self.value.len() == self.entry.length
    }
}

/// Model of a variable field: a 2-character code and a value.
#[verifier::ext_equal]
pub ghost struct FieldValue {
    pub code: Seq<char>,
    pub value: Seq<char>,
}

/// Model of a whole message.
#[verifier::ext_equal]
pub ghost struct MessageValue {
    pub entry: MessageSpec,
    pub fixed_fields: Seq<FixedFieldValue>,
    pub fields: Seq<FieldValue>,
}

impl MessageValue {
    /// The fixed-field values match the shape one to one, in count and order,
    /// and each fills its slot exactly.
    pub open spec fn wf(self) -> bool {
        &&& self.fixed_fields.len() == self.entry.fixed_fields.len()
        &&& forall|i: int|
            0 <= i < self.fixed_fields.len() ==> {
                &&& (#[trigger] self.fixed_fields[i]).entry == self.entry.fixed_fields[i]
                &&& self.fixed_fields[i].wf()
            }
    }
}

/// The views of a sequence of fixed-field values.
pub open spec fn fixed_field_value_views(s: Seq<FixedField>) -> Seq<FixedFieldValue> {
    s.map_values(|f: FixedField| f@)
}

/// The views of a sequence of variable fields.
pub open spec fn field_value_views(s: Seq<Field>) -> Seq<FieldValue> {
    s.map_values(|f: Field| f@)
}

// ------------------------------------------------------------------
// The wire format, encode side
// ------------------------------------------------------------------

/// Sanitizing a variable-field value: every delimiter character is stripped.
pub open spec fn strip_bars(s: Seq<char>) -> Seq<char> {
    s.filter(|c: char| c != '|')
}

/// One variable field on the wire: code, sanitized value, delimiter.
pub open spec fn field_sip(f: FieldValue) -> Seq<char> {
    f.code + strip_bars(f.value) + seq!['|']
}

/// All variable fields on the wire, in order.
pub open spec fn fields_sip(fs: Seq<FieldValue>) -> Seq<char>
    decreases fs.len(),
{
    if fs.len() == 0 {
        Seq::empty()
    } else {
        field_sip(fs[0]) + fields_sip(fs.drop_first())
    }
}

/// All fixed-field values on the wire: the raw values, back to back.
pub open spec fn fixed_fields_sip(ffs: Seq<FixedFieldValue>) -> Seq<char>
    decreases ffs.len(),
{
    if ffs.len() == 0 {
        Seq::empty()
    } else {
        ffs[0].value + fixed_fields_sip(ffs.drop_first())
    }
}

/// A whole message on the wire: code, fixed fields, variable fields.
pub open spec fn message_sip(m: MessageValue) -> Seq<char> {
    m.entry.code + fixed_fields_sip(m.fixed_fields) + fields_sip(m.fields)
}

// ------------------------------------------------------------------
// The wire format, decode side
// ------------------------------------------------------------------

/// Splitting text on the delimiter.  The result always holds at least one
/// chunk; a trailing delimiter leaves a trailing empty chunk.
pub open spec fn split_bars(s: Seq<char>) -> Seq<Seq<char>>
    decreases s.len(),
{
    if s.len() == 0 {
        seq![Seq::<char>::empty()]
    } else if s[0] == '|' {
        seq![Seq::<char>::empty()] + split_bars(s.drop_first())
    } else {
        let rest = split_bars(s.drop_first());
        seq![seq![s[0]] + rest[0]] + rest.drop_first()
    }
}

/// Chunks of length at least 3 become variable fields (2-character code,
/// then the value); shorter chunks are discarded silently.
pub open spec fn chunk_fields(chunks: Seq<Seq<char>>) -> Seq<FieldValue>
    decreases chunks.len(),
{
    if chunks.len() == 0 {
        Seq::empty()
    } else {
        let rest = chunk_fields(chunks.drop_first());
        if chunks[0].len() >= 3 {
            seq![FieldValue { code: chunks[0].take(2), value: chunks[0].skip(2) }] + rest
        } else {
            rest
        }
    }
}

/// The variable fields decoded from the text after the fixed fields.
pub open spec fn fields_of_text(s: Seq<char>) -> Seq<FieldValue> {
    chunk_fields(split_bars(s))
}

/// The total character count of a fixed-field shape.
pub open spec fn total_fixed_len(specs: Seq<FixedFieldSpec>) -> nat
    decreases specs.len(),
{
    if specs.len() == 0 {
        0
    } else {
        specs[0].length + total_fixed_len(specs.drop_first())
    }
}

/// The fixed-field values read positionally from the start of `t`,
/// one slot after the other.
pub open spec fn fixed_values_of_text(specs: Seq<FixedFieldSpec>, t: Seq<char>) -> Seq<
    FixedFieldValue,
>
    decreases specs.len(),
{
    if specs.len() == 0 {
        Seq::empty()
    } else {
        seq![FixedFieldValue { entry: specs[0], value: t.take(specs[0].length as int) }]
            + fixed_values_of_text(specs.drop_first(), t.skip(specs[0].length as int))
    }
}

/// What decoding wire text yields: `None` exactly when the text is too short
/// for a code, the code is unknown, or the text is too short for the shape's
/// fixed fields.
pub open spec fn message_of_sip(t: Seq<char>) -> Option<MessageValue> {
    if t.len() < 2 {
        None
    } else {
        match catalog::message_spec_by_code(t.take(2)) {
            None => None,
            Some(ms) => {
                if t.len() < 2 + total_fixed_len(ms.fixed_fields) {
                    None
                } else {
                    Some(
                        MessageValue {
                            entry: ms,
                            fixed_fields: fixed_values_of_text(ms.fixed_fields, t.skip(2)),
                            fields: fields_of_text(
                                t.skip(2 + total_fixed_len(ms.fixed_fields) as int),
                            ),
                        },
                    )
                }
            },
        }
    }
}

// ------------------------------------------------------------------
// Executable types
// ------------------------------------------------------------------

/// A fixed-field value, bound to its slot.  Constructed only with a value of
/// exactly the slot's length; never mutated afterwards.
#[derive(Debug)]
pub struct FixedField {
    entry: catalog::FixedField,
    value: String,
}

impl View for FixedField {
    type V = FixedFieldValue;

    closed spec fn view(&self) -> FixedFieldValue {
        FixedFieldValue { entry: self.entry@, value: self.value@ }
    }
}

impl FixedField {
    /// Binds a value to a fixed-field slot.  Succeeds exactly when the value
    /// has the slot's required character count.
    pub fn new(entry: &catalog::FixedField, value: &str) -> (r: Result<FixedField, Error>)
        ensures
            r is Ok <==> value@.len() == entry@.length,
            r is Ok ==> r.unwrap()@ == (FixedFieldValue { entry: entry@, value: value@ }),
            r is Ok ==> r.unwrap()@.wf(),
            r is Err ==> r->Err_0 == Error::FixedFieldLengthError,
    {
        if value.unicode_len() == entry.length {
            Ok(FixedField { entry: entry.clone(), value: value.to_owned() })
        } else {
            Err(Error::FixedFieldLengthError)
        }
    }

    /// The slot this value fills.
    pub fn spec(&self) -> (r: &catalog::FixedField)
        ensures
            r@ == self@.entry,
    {
        &self.entry
    }

    /// The raw value.
    pub fn value(&self) -> (r: &str)
        ensures
            r@ == self@.value,
    {
        self.value.as_str()
    }

    /// The wire text of this value: the raw characters, exactly as stored,
    /// since a fixed field is positional and never padded or escaped.
    pub fn to_sip(&self) -> (r: String)
        ensures
            r@ == self@.value,
    {
        self.value.clone()
    }
}

/// A variable field: a 2-character code (not required to be catalog-known)
/// and a value.
#[derive(Debug)]
pub struct Field {
    code: String,
    value: String,
}

impl View for Field {
    type V = FieldValue;

    closed spec fn view(&self) -> FieldValue {
        FieldValue { code: self.code@, value: self.value@ }
    }
}

impl Field {
    /// Builds a variable field from any code and value.
    pub fn new(code: &str, value: &str) -> (r: Field)
        ensures
            r@ == (FieldValue { code: code@, value: value@ }),
    {
        Field { code: code.to_owned(), value: value.to_owned() }
    }

    /// The 2-character code.
    pub fn code(&self) -> (r: &str)
        ensures
            r@ == self@.code,
    {
        self.code.as_str()
    }

    /// The value.
    pub fn value(&self) -> (r: &str)
        ensures
            r@ == self@.value,
    {
        self.value.as_str()
    }

    /// The wire text of this field: code, sanitized value, and the trailing
    /// delimiter.
    pub fn to_sip(&self) -> (r: String)
        ensures
            r@ == field_sip(self@),
    {
        let mut s = self.code.clone();
        let clean = util::sip_string(self.value.as_str());
        s.append(clean.as_str());
        s.append("|");
        proof {
            reveal_strlit("|");
            assert(s@ =~= field_sip(self@));
        }
        s
    }
}

/// A structured message: a catalog shape, fixed-field values matching it one
/// to one, and any number of variable fields.  Immutable after construction.
#[derive(Debug)]
pub struct Message {
    entry: catalog::Message,
    fixed_fields: Vec<FixedField>,
    fields: Vec<Field>,
}

impl View for Message {
    type V = MessageValue;

    closed spec fn view(&self) -> MessageValue {
        MessageValue {
            entry: self.entry@,
            fixed_fields: fixed_field_value_views(self.fixed_fields@),
            fields: field_value_views(self.fields@),
        }
    }
}

impl Message {
    /// Assembles a message.  The fixed-field values must match the shape one
    /// to one, in count and order.
    pub fn new(entry: &catalog::Message, fixed_fields: Vec<FixedField>, fields: Vec<Field>) -> (r:
        Message)
        requires
            fixed_fields@.len() == entry@.fixed_fields.len(),
            forall|i: int|
                0 <= i < fixed_fields@.len() ==> (#[trigger] fixed_fields@[i])@.entry
                    == entry@.fixed_fields[i] && fixed_fields@[i]@.wf(),
        ensures
            r@ == (MessageValue {
                entry: entry@,
                fixed_fields: fixed_field_value_views(fixed_fields@),
                fields: field_value_views(fields@),
            }),
            r@.wf(),
    {
        Message { entry: entry.clone(), fixed_fields, fields }
    }

    /// The catalog shape of this message.
    pub fn spec(&self) -> (r: &catalog::Message)
        ensures
            r@ == self@.entry,
    {
        &self.entry
    }

    /// The variable fields, in wire order.
    pub fn fields(&self) -> (r: &Vec<Field>)
        ensures
            field_value_views(r@) == self@.fields,
    {
        &self.fields
    }

    /// The fixed-field values, in shape order.
    pub fn fixed_fields(&self) -> (r: &Vec<FixedField>)
        ensures
            fixed_field_value_views(r@) == self@.fixed_fields,
    {
        &self.fixed_fields
    }

    /// The value of the first variable field with the given code, if any.
    pub fn get_field_value(&self, code: &str) -> (r: Option<String>)
        ensures
            r is Some <==> first_field_value(self@.fields, code@) is Some,
            r is Some ==> Some(r.unwrap()@) == first_field_value(self@.fields, code@),
    {
        let n = self.fields.len();
        proof {
            assert(self@.fields.skip(0) =~= self@.fields);
        }
        let mut i: usize = 0;
        while i < n
            invariant
                n == self.fields@.len(),
                i <= n,
                first_field_value(self@.fields, code@) == first_field_value(
                    self@.fields.skip(i as int),
                    code@,
                ),
            decreases n - i,
        {
            proof {
                assert(self@.fields.skip(i as int).len() == n - i);
                assert(self@.fields.skip(i as int)[0] == self@.fields[i as int]);
                assert(self@.fields.skip(i as int).drop_first() =~= self@.fields.skip(i as int + 1));
            }
            if util::str_eq(self.fields[i].code(), code) {
                return Some(self.fields[i].value().to_owned());
            }
            i += 1;
        }
        proof {
            assert(self@.fields.skip(n as int).len() == 0);
        }
        None
    }
}

/// The value of the first field in `fs` whose code is `code`.
pub open spec fn first_field_value(fs: Seq<FieldValue>, code: Seq<char>) -> Option<Seq<char>>
    decreases fs.len(),
{
    if fs.len() == 0 {
        None
    } else if fs[0].code == code {
        Some(fs[0].value)
    } else {
        first_field_value(fs.drop_first(), code)
    }
}

// ------------------------------------------------------------------
// Lemmas about the wire format
// ------------------------------------------------------------------

/// Appending one fixed-field value appends its characters.
proof fn lemma_fixed_fields_sip_push(ffs: Seq<FixedFieldValue>, x: FixedFieldValue)
    ensures
        fixed_fields_sip(ffs.push(x)) == fixed_fields_sip(ffs) + x.value,
    decreases ffs.len(),
{
    if ffs.len() == 0 {
        assert(ffs.push(x)[0] == x);
        assert(ffs.push(x).drop_first() =~= ffs);
        assert(fixed_fields_sip(ffs.push(x)) == x.value + fixed_fields_sip(ffs));
        assert(x.value + fixed_fields_sip(ffs) =~= fixed_fields_sip(ffs) + x.value);
    } else {
        assert(ffs.push(x)[0] == ffs[0]);
        assert(ffs.push(x).drop_first() =~= ffs.drop_first().push(x));
        lemma_fixed_fields_sip_push(ffs.drop_first(), x);
        assert(fixed_fields_sip(ffs.push(x)) == ffs[0].value + (fixed_fields_sip(ffs.drop_first())
            + x.value));
        assert(ffs[0].value + (fixed_fields_sip(ffs.drop_first()) + x.value) =~= (ffs[0].value
            + fixed_fields_sip(ffs.drop_first())) + x.value);
        assert(fixed_fields_sip(ffs) == ffs[0].value + fixed_fields_sip(ffs.drop_first()));
    }
}

/// Appending one variable field appends its wire text.
proof fn lemma_fields_sip_push(fs: Seq<FieldValue>, x: FieldValue)
    ensures
        fields_sip(fs.push(x)) == fields_sip(fs) + field_sip(x),
    decreases fs.len(),
{
    if fs.len() == 0 {
        assert(fs.push(x)[0] == x);
        assert(fs.push(x).drop_first() =~= fs);
        assert(fields_sip(fs.push(x)) == field_sip(x) + fields_sip(fs));
        assert(field_sip(x) + fields_sip(fs) =~= fields_sip(fs) + field_sip(x));
    } else {
        assert(fs.push(x)[0] == fs[0]);
        assert(fs.push(x).drop_first() =~= fs.drop_first().push(x));
        lemma_fields_sip_push(fs.drop_first(), x);
        assert(fields_sip(fs.push(x)) == field_sip(fs[0]) + (fields_sip(fs.drop_first())
            + field_sip(x)));
        assert(field_sip(fs[0]) + (fields_sip(fs.drop_first()) + field_sip(x)) =~= (field_sip(fs[0])
            + fields_sip(fs.drop_first())) + field_sip(x));
        assert(fields_sip(fs) == field_sip(fs[0]) + fields_sip(fs.drop_first()));
    }
}

/// The total length of a shape splits at any point.
proof fn lemma_total_fixed_len_split(specs: Seq<FixedFieldSpec>, k: int)
    requires
        0 <= k <= specs.len(),
    ensures
        total_fixed_len(specs) == total_fixed_len(specs.take(k)) + total_fixed_len(specs.skip(k)),
    decreases k,
{
    if k == 0 {
        assert(specs.take(0) =~= Seq::<FixedFieldSpec>::empty());
        assert(specs.skip(0) =~= specs);
    } else {
        lemma_total_fixed_len_split(specs.drop_first(), k - 1);
        assert(specs.take(k)[0] == specs[0]);
        assert(specs.take(k).drop_first() =~= specs.drop_first().take(k - 1));
        assert(specs.skip(k) =~= specs.drop_first().skip(k - 1));
    }
}

/// One more slot adds exactly that slot's length to the running total.
proof fn lemma_prefix_len_succ(specs: Seq<FixedFieldSpec>, k: int)
    requires
        0 <= k < specs.len(),
    ensures
        total_fixed_len(specs.take(k + 1)) == total_fixed_len(specs.take(k)) + specs[k].length,
    decreases k,
{
    if k == 0 {
        assert(specs.take(1)[0] == specs[0]);
        assert(specs.take(1).drop_first() =~= Seq::<FixedFieldSpec>::empty());
        assert(specs.take(0) =~= Seq::<FixedFieldSpec>::empty());
    } else {
        lemma_prefix_len_succ(specs.drop_first(), k - 1);
        assert(specs.take(k + 1)[0] == specs[0]);
        assert(specs.take(k + 1).drop_first() =~= specs.drop_first().take(k));
        assert(specs.take(k)[0] == specs[0]);
        assert(specs.take(k).drop_first() =~= specs.drop_first().take(k - 1));
        assert(specs.drop_first()[k - 1] == specs[k]);
    }
}

/// Where each fixed-field value of a decode sits in the text.
proof fn lemma_fixed_values_of_text(specs: Seq<FixedFieldSpec>, t: Seq<char>)
    requires
        total_fixed_len(specs) <= t.len(),
    ensures
        fixed_values_of_text(specs, t).len() == specs.len(),
        forall|i: int|
            0 <= i < specs.len() ==> #[trigger] fixed_values_of_text(specs, t)[i]
                == (FixedFieldValue {
                entry: specs[i],
                value: t.subrange(
                    total_fixed_len(specs.take(i)) as int,
                    total_fixed_len(specs.take(i)) as int + specs[i].length as int,
                ),
            }),
    decreases specs.len(),
{
    if specs.len() == 0 {
    } else {
        let l0 = specs[0].length as int;
        let t1 = t.skip(l0);
        lemma_fixed_values_of_text(specs.drop_first(), t1);
        assert forall|i: int| 0 <= i < specs.len() implies #[trigger] fixed_values_of_text(
            specs,
            t,
        )[i] == (FixedFieldValue {
            entry: specs[i],
            value: t.subrange(
                total_fixed_len(specs.take(i)) as int,
                total_fixed_len(specs.take(i)) as int + specs[i].length as int,
            ),
        }) by {
            if i == 0 {
                assert(specs.take(0) =~= Seq::<FixedFieldSpec>::empty());
                assert(t.take(l0) =~= t.subrange(0, l0));
            } else {
                let j = i - 1;
                assert(fixed_values_of_text(specs, t)[i] == fixed_values_of_text(
                    specs.drop_first(),
                    t1,
                )[j]);
                assert(specs.drop_first()[j] == specs[i]);
                lemma_total_fixed_len_split(specs.drop_first(), j);
                lemma_total_fixed_len_split(specs.drop_first(), j + 1);
                assert(specs.take(i).drop_first() =~= specs.drop_first().take(j));
                assert(specs.take(i)[0] == specs[0]);
                let offj = total_fixed_len(specs.drop_first().take(j)) as int;
                assert(total_fixed_len(specs.take(i)) == l0 + offj);
                assert(t1.subrange(offj, offj + specs[i].length as int) =~= t.subrange(
                    l0 + offj,
                    l0 + offj + specs[i].length as int,
                ));
            }
        }
    }
}

/// Splitting text without a delimiter yields one chunk: the text itself.
proof fn lemma_split_bars_no_bar(s: Seq<char>)
    requires
        forall|j: int| 0 <= j < s.len() ==> s[j] != '|',
    ensures
        split_bars(s) =~~= seq![s],
    decreases s.len(),
{
    if s.len() == 0 {
        assert(split_bars(s) =~~= seq![s]);
    } else {
        lemma_split_bars_no_bar(s.drop_first());
        assert(seq![s[0]] + split_bars(s.drop_first())[0] =~= s);
        assert(split_bars(s.drop_first()).drop_first() =~= Seq::<Seq<char>>::empty());
        assert(split_bars(s) =~~= seq![s]);
    }
}

/// Splitting text at its first delimiter: the part before it is the first
/// chunk, and the rest splits on its own.
proof fn lemma_split_bars_at_bar(s: Seq<char>, k: int)
    requires
        0 <= k < s.len(),
        s[k] == '|',
        forall|j: int| 0 <= j < k ==> s[j] != '|',
    ensures
        split_bars(s) =~~= seq![s.take(k)] + split_bars(s.skip(k + 1)),
    decreases k,
{
    if k == 0 {
        assert(s.take(0) =~= Seq::<char>::empty());
        assert(s.skip(1) =~= s.drop_first());
        assert(split_bars(s) =~~= seq![s.take(0)] + split_bars(s.skip(1)));
    } else {
        lemma_split_bars_at_bar(s.drop_first(), k - 1);
        let rest = split_bars(s.drop_first());
        assert(rest =~~= seq![s.drop_first().take(k - 1)] + split_bars(s.drop_first().skip(k)));
        assert(rest[0] == s.drop_first().take(k - 1));
        assert(seq![s[0]] + rest[0] =~= s.take(k));
        assert(rest.drop_first() =~= split_bars(s.drop_first().skip(k)));
        assert(s.drop_first().skip(k) =~= s.skip(k + 1));
        assert(split_bars(s) =~~= seq![s.take(k)] + split_bars(s.skip(k + 1)));
    }
}

/// Reading fields chunk by chunk: the first chunk contributes its field (or
/// nothing, when it is shorter than 3 characters), the rest follow.
proof fn lemma_chunk_fields_cons(c: Seq<char>, rest: Seq<Seq<char>>)
    ensures
        chunk_fields(seq![c] + rest) == (if c.len() >= 3 {
            seq![FieldValue { code: c.take(2), value: c.skip(2) }]
        } else {
            Seq::<FieldValue>::empty()
        }) + chunk_fields(rest),
{
    let s = seq![c] + rest;
    assert(s[0] == c);
    assert(s.drop_first() =~= rest);
    if c.len() >= 3 {
        assert(chunk_fields(s) =~= seq![FieldValue { code: c.take(2), value: c.skip(2) }]
            + chunk_fields(rest));
    } else {
        assert(chunk_fields(s) =~= Seq::<FieldValue>::empty() + chunk_fields(rest));
    }
}

impl Message {
    /// Renders the message as wire text: the message code, then each
    /// fixed-field value exactly as stored, then each variable field as
    /// code, sanitized value and delimiter.  The text depends on the
    /// message value alone.
    pub fn to_sip(&self) -> (r: String)
        ensures
            r@ == message_sip(self@),
    {
        let mut s = String::new();
        s.append(self.entry.code.as_str());
        let n = self.fixed_fields.len();
        let mut i: usize = 0;
        proof {
            assert(self@.fixed_fields.take(0) =~= Seq::<FixedFieldValue>::empty());
            assert(s@ =~= self@.entry.code + fixed_fields_sip(self@.fixed_fields.take(0)));
        }
        while i < n
            invariant
                n == self.fixed_fields@.len(),
                i <= n,
                s@ == self@.entry.code + fixed_fields_sip(self@.fixed_fields.take(i as int)),
            decreases n - i,
        {
            s.append(self.fixed_fields[i].value.as_str());
            proof {
                assert(self@.fixed_fields.take(i + 1) =~= self@.fixed_fields.take(i as int).push(
                    self@.fixed_fields[i as int],
                ));
                lemma_fixed_fields_sip_push(
                    self@.fixed_fields.take(i as int),
                    self@.fixed_fields[i as int],
                );
                assert(s@ =~= self@.entry.code + fixed_fields_sip(self@.fixed_fields.take(i + 1)));
            }
            i += 1;
        }
        proof {
            assert(self@.fixed_fields.take(n as int) =~= self@.fixed_fields);
            assert(self@.fields.take(0) =~= Seq::<FieldValue>::empty());
            assert(s@ =~= self@.entry.code + fixed_fields_sip(self@.fixed_fields) + fields_sip(
                self@.fields.take(0),
            ));
        }
        let m = self.fields.len();
        let mut j: usize = 0;
        while j < m
            invariant
                m == self.fields@.len(),
                j <= m,
                s@ == self@.entry.code + fixed_fields_sip(self@.fixed_fields) + fields_sip(
                    self@.fields.take(j as int),
                ),
            decreases m - j,
        {
            let fstr = self.fields[j].to_sip();
            s.append(fstr.as_str());
            proof {
                assert(self@.fields.take(j + 1) =~= self@.fields.take(j as int).push(
                    self@.fields[j as int],
                ));
                lemma_fields_sip_push(self@.fields.take(j as int), self@.fields[j as int]);
                assert(s@ =~= self@.entry.code + fixed_fields_sip(self@.fixed_fields) + fields_sip(
                    self@.fields.take(j + 1),
                ));
            }
            j += 1;
        }
        proof {
            assert(self@.fields.take(m as int) =~= self@.fields);
        }
        s
    }

    /// Parses wire text (without its terminator) back into a message.
    ///
    /// Fails with `MessageFormatError` exactly when the text is too short to
    /// hold a message code, the code is not in the catalog, or the text is
    /// too short for the shape's fixed fields; decoded fixed fields are
    /// infallible beyond that, and any remaining text is split on the
    /// delimiter, chunks shorter than 3 characters discarded silently.
    pub fn from_sip(text: &str) -> (r: Result<Message, Error>)
        ensures
            r is Ok <==> message_of_sip(text@) is Some,
            r is Ok ==> r.unwrap()@ == message_of_sip(text@)->Some_0,
            r is Ok ==> r.unwrap()@.wf(),
            r is Err ==> r->Err_0 == Error::MessageFormatError,
    {
        let len = text.unicode_len();
        if len < 2 {
            return Err(Error::MessageFormatError);
        }
        let code = text.substring_char(0, 2);
        proof {
            assert(code@ =~= text@.take(2));
        }
        let entry = match catalog::Message::from_code(code) {
            Some(e) => e,
            None => {
                return Err(Error::MessageFormatError);
            },
        };
        let ghost specs = entry@.fixed_fields;
        let n = entry.fixed_fields.len();
        proof {
            assert(specs.take(0) =~= Seq::<FixedFieldSpec>::empty());
        }
        let mut fixed: Vec<FixedField> = Vec::new();
        let mut pos: usize = 2;
        let mut k: usize = 0;
        while k < n
            invariant
                len == text@.len(),
                2 <= pos <= len,
                n == entry.fixed_fields@.len(),
                specs == entry@.fixed_fields,
                catalog::message_spec_by_code(text@.take(2)) == Some(entry@),
                k <= n,
                pos == 2 + total_fixed_len(specs.take(k as int)),
                fixed@.len() == k,
                forall|i: int|
                    0 <= i < k ==> (#[trigger] fixed@[i])@ == (FixedFieldValue {
                        entry: specs[i],
                        value: text@.subrange(
                            2 + total_fixed_len(specs.take(i)) as int,
                            2 + total_fixed_len(specs.take(i)) as int + specs[i].length as int,
                        ),
                    }),
            decreases n - k,
        {
            let ffe = &entry.fixed_fields[k];
            proof {
                assert(ffe@ == specs[k as int]);
                lemma_prefix_len_succ(specs, k as int);
                lemma_total_fixed_len_split(specs, k as int + 1);
            }
            if len - pos < ffe.length {
                proof {
                    assert(text@.len() < 2 + total_fixed_len(specs));
                }
                return Err(Error::MessageFormatError);
            }
            let value = text.substring_char(pos, pos + ffe.length).to_owned();
            fixed.push(FixedField { entry: ffe.clone(), value });
            pos += ffe.length;
            k += 1;
        }
        proof {
            assert(specs.take(n as int) =~= specs);
        }
        // The whole fixed region fit: the decode is determined now.
        let ghost mv = message_of_sip(text@)->Some_0;
        proof {
            assert(message_of_sip(text@) is Some);
            lemma_fixed_values_of_text(specs, text@.skip(2));
            assert forall|i: int| 0 <= i < n implies #[trigger] fixed_field_value_views(fixed@)[i]
                == fixed_values_of_text(specs, text@.skip(2))[i] by {
                lemma_prefix_len_succ(specs, i);
                lemma_total_fixed_len_split(specs, i + 1);
                let off = total_fixed_len(specs.take(i)) as int;
                assert(text@.skip(2).subrange(off, off + specs[i].length as int) =~= text@.subrange(
                    2 + off,
                    2 + off + specs[i].length as int,
                ));
            }
            assert(fixed_field_value_views(fixed@) =~= fixed_values_of_text(specs, text@.skip(2)));
        }
        // Split the remaining text on the delimiter.
        let mut fields: Vec<Field> = Vec::new();
        let mut start: usize = pos;
        let mut i: usize = pos;
        proof {
            assert(field_value_views(fields@) =~= Seq::<FieldValue>::empty());
            assert(field_value_views(fields@) + fields_of_text(
                text@.subrange(start as int, len as int),
            ) =~= fields_of_text(text@.subrange(pos as int, len as int)));
        }
        while i < len
            invariant
                len == text@.len(),
                pos <= start <= i <= len,
                forall|j: int| start <= j < i ==> text@[j] != '|',
                field_value_views(fields@) + fields_of_text(
                    text@.subrange(start as int, len as int),
                ) == fields_of_text(text@.subrange(pos as int, len as int)),
            decreases len - i,
        {
            let c = text.get_char(i);
            if c == '|' {
                proof {
                    let s = text@.subrange(start as int, len as int);
                    lemma_split_bars_at_bar(s, i - start);
                    assert(s.take(i - start) =~= text@.subrange(start as int, i as int));
                    assert(s.skip(i - start + 1) =~= text@.subrange(i + 1, len as int));
                    lemma_chunk_fields_cons(
                        text@.subrange(start as int, i as int),
                        split_bars(text@.subrange(i + 1, len as int)),
                    );
                }
                if i - start >= 3 {
                    let fcode = text.substring_char(start, start + 2).to_owned();
                    let fval = text.substring_char(start + 2, i).to_owned();
                    let ghost fields0 = fields@;
                    fields.push(Field { code: fcode, value: fval });
                    proof {
                        let c0 = text@.subrange(start as int, i as int);
                        assert(c0.take(2) =~= text@.subrange(start as int, start as int + 2));
                        assert(c0.skip(2) =~= text@.subrange(start as int + 2, i as int));
                        assert(field_value_views(fields@) =~= field_value_views(fields0).push(
                            FieldValue { code: c0.take(2), value: c0.skip(2) },
                        ));
                        assert(field_value_views(fields@) + fields_of_text(
                            text@.subrange(i + 1, len as int),
                        ) =~= fields_of_text(text@.subrange(pos as int, len as int)));
                    }
                } else {
                    proof {
                        assert(field_value_views(fields@) + fields_of_text(
                            text@.subrange(i + 1, len as int),
                        ) =~= fields_of_text(text@.subrange(pos as int, len as int)));
                    }
                }
                start = i + 1;
            }
            i += 1;
        }
        proof {
            let s = text@.subrange(start as int, len as int);
            lemma_split_bars_no_bar(s);
            lemma_chunk_fields_cons(s, Seq::<Seq<char>>::empty());
            assert(seq![s] + Seq::<Seq<char>>::empty() =~~= seq![s]);
            assert(fields_of_text(s) == (if s.len() >= 3 {
                seq![FieldValue { code: s.take(2), value: s.skip(2) }]
            } else {
                Seq::<FieldValue>::empty()
            }) + chunk_fields(Seq::<Seq<char>>::empty()));
        }
        if len - start >= 3 {
            let fcode = text.substring_char(start, start + 2).to_owned();
            let fval = text.substring_char(start + 2, len).to_owned();
            let ghost fields0 = fields@;
            fields.push(Field { code: fcode, value: fval });
            proof {
                let s = text@.subrange(start as int, len as int);
                assert(s.take(2) =~= text@.subrange(start as int, start as int + 2));
                assert(s.skip(2) =~= text@.subrange(start as int + 2, len as int));
                assert(field_value_views(fields@) =~= field_value_views(fields0).push(
                    FieldValue { code: s.take(2), value: s.skip(2) },
                ));
                assert(fields_of_text(s) == seq![FieldValue { code: s.take(2), value: s.skip(2) }]);
                assert(field_value_views(fields0).push(
                    FieldValue { code: s.take(2), value: s.skip(2) },
                ) =~= field_value_views(fields0) + fields_of_text(s));
                assert(field_value_views(fields@) == fields_of_text(
                    text@.subrange(pos as int, len as int),
                ));
            }
        } else {
            proof {
                let s = text@.subrange(start as int, len as int);
                assert(fields_of_text(s) == Seq::<FieldValue>::empty());
                assert(field_value_views(fields@) + fields_of_text(s) =~= field_value_views(
                    fields@,
                ));
                assert(field_value_views(fields@) == fields_of_text(
                    text@.subrange(pos as int, len as int),
                ));
            }
        }
        let msg = Message { entry, fixed_fields: fixed, fields };
        proof {
            assert(text@.subrange(pos as int, len as int) =~= text@.skip(pos as int));
            assert(msg@.fixed_fields =~= mv.fixed_fields);
            assert(msg@.fields =~= mv.fields);
            assert(msg@ =~= mv);
            assert forall|i: int| 0 <= i < msg@.fixed_fields.len() implies {
                &&& (#[trigger] msg@.fixed_fields[i]).entry == msg@.entry.fixed_fields[i]
                &&& msg@.fixed_fields[i].wf()
            } by {
                lemma_prefix_len_succ(specs, i);
                lemma_total_fixed_len_split(specs, i + 1);
            }
        }
        Ok(msg)
    }
}


// ------------------------------------------------------------------
// Laws of the codec
// ------------------------------------------------------------------

/// Every message code in the catalog is exactly 2 characters, and the shape
/// found under a code carries that code.
proof fn lemma_catalog_code_len(code: Seq<char>)
    requires
        catalog::message_spec_by_code(code) is Some,
    ensures
        code.len() == 2,
        catalog::message_spec_by_code(code)->Some_0.code == code,
{
    reveal_strlit("99");
    reveal_strlit("98");
    reveal_strlit("93");
    reveal_strlit("94");
    reveal_strlit("17");
    reveal_strlit("18");
    reveal_strlit("23");
    reveal_strlit("24");
    reveal_strlit("63");
    reveal_strlit("64");
    reveal_strlit("11");
    reveal_strlit("12");
    reveal_strlit("29");
    reveal_strlit("65");
    reveal_strlit("66");
    reveal_strlit("09");
    reveal_strlit("10");
    reveal_strlit("15");
    reveal_strlit("16");
    reveal_strlit("37");
    reveal_strlit("38");
}

/// Stripping delimiters from text that has none changes nothing.
proof fn lemma_strip_bars_id(s: Seq<char>)
    requires
        forall|j: int| 0 <= j < s.len() ==> s[j] != '|',
    ensures
        strip_bars(s) == s,
    decreases s.len(),
{
    reveal(Seq::filter);
    if s.len() == 0 {
        assert(strip_bars(s) =~= s);
    } else {
        lemma_strip_bars_id(s.drop_last());
        assert(s.drop_last().push(s.last()) =~= s);
    }
}

/// Reading fixed-field values back from their own wire text, with anything
/// appended after them, recovers exactly the values.
proof fn lemma_fixed_values_round_trip(
    specs: Seq<FixedFieldSpec>,
    ffs: Seq<FixedFieldValue>,
    tail: Seq<char>,
)
    requires
        ffs.len() == specs.len(),
        forall|i: int|
            0 <= i < ffs.len() ==> (#[trigger] ffs[i]).entry == specs[i] && ffs[i].wf(),
    ensures
        fixed_fields_sip(ffs).len() == total_fixed_len(specs),
        fixed_values_of_text(specs, fixed_fields_sip(ffs) + tail) == ffs,
    decreases specs.len(),
{
    if specs.len() == 0 {
        assert(fixed_values_of_text(specs, fixed_fields_sip(ffs) + tail) =~= ffs);
    } else {
        let l0 = specs[0].length as int;
        let v0 = ffs[0].value;
        let s = fixed_fields_sip(ffs) + tail;
        lemma_fixed_values_round_trip(specs.drop_first(), ffs.drop_first(), tail);
        assert(fixed_fields_sip(ffs) == v0 + fixed_fields_sip(ffs.drop_first()));
        assert(s.take(l0) =~= v0);
        assert(s.skip(l0) =~= fixed_fields_sip(ffs.drop_first()) + tail);
        assert(fixed_values_of_text(specs, s) == seq![
            FixedFieldValue { entry: specs[0], value: s.take(l0) },
        ] + fixed_values_of_text(specs.drop_first(), s.skip(l0)));
        assert(FixedFieldValue { entry: specs[0], value: s.take(l0) } == ffs[0]);
        assert(fixed_values_of_text(specs, s) =~= ffs);
    }
}

/// Reading variable fields back from their own wire text recovers exactly
/// the fields, as long as each code is 2 delimiter-free characters and each
/// value is non-empty and delimiter-free.
proof fn lemma_fields_round_trip(fs: Seq<FieldValue>)
    requires
        forall|i: int| 0 <= i < fs.len() ==> (#[trigger] fs[i]).code.len() == 2,
        forall|i: int| 0 <= i < fs.len() ==> (#[trigger] fs[i]).value.len() >= 1,
        forall|i: int, j: int|
            0 <= i < fs.len() && 0 <= j < fs[i].code.len() ==> (#[trigger] fs[i].code[j]) != '|',
        forall|i: int, j: int|
            0 <= i < fs.len() && 0 <= j < fs[i].value.len() ==> (#[trigger] fs[i].value[j]) != '|',
    ensures
        fields_of_text(fields_sip(fs)) == fs,
    decreases fs.len(),
{
    if fs.len() == 0 {
        assert(fields_sip(fs) == Seq::<char>::empty());
        lemma_split_bars_no_bar(Seq::<char>::empty());
        assert(seq![Seq::<char>::empty()].drop_first() =~= Seq::<Seq<char>>::empty());
        assert(chunk_fields(Seq::<Seq<char>>::empty()) == Seq::<FieldValue>::empty());
        assert(fields_of_text(fields_sip(fs)) =~= fs);
    } else {
        let f0 = fs[0];
        lemma_strip_bars_id(f0.value);
        let a = f0.code + f0.value;
        let b = fields_sip(fs.drop_first());
        let s = fields_sip(fs);
        assert(s == field_sip(f0) + b);
        assert(s =~= a + seq!['|'] + b);
        assert(a.len() == 2 + f0.value.len());
        assert(forall|j: int| 0 <= j < a.len() ==> a[j] != '|');
        assert((a + seq!['|'] + b)[a.len() as int] == '|');
        lemma_split_bars_at_bar(a + seq!['|'] + b, a.len() as int);
        assert((a + seq!['|'] + b).take(a.len() as int) =~= a);
        assert((a + seq!['|'] + b).skip(a.len() as int + 1) =~= b);
        lemma_chunk_fields_cons(a, split_bars(b));
        assert(a.take(2) =~= f0.code);
        assert(a.skip(2) =~= f0.value);
        lemma_fields_round_trip(fs.drop_first());
        assert(fields_of_text(s) == seq![FieldValue { code: a.take(2), value: a.skip(2) }]
            + fs.drop_first());
        assert(fields_of_text(s) =~= fs);
    }
}

/// Round trip: a well-formed message whose shape stands in the catalog
/// decodes from its own wire text unchanged -- the same shape, the same
/// fixed-field values in order, the same variable fields in order.
///
/// The variable fields must carry a 2-character, delimiter-free code and a
/// non-empty, delimiter-free value: encoding strips delimiters and decoding
/// discards chunks shorter than 3 characters, so a field such as one with an
/// empty value does not survive the wire.
pub proof fn lemma_round_trip(m: MessageValue)
    requires
        m.wf(),
        catalog::message_spec_by_code(m.entry.code) == Some(m.entry),
        forall|i: int| 0 <= i < m.fields.len() ==> (#[trigger] m.fields[i]).code.len() == 2,
        forall|i: int| 0 <= i < m.fields.len() ==> (#[trigger] m.fields[i]).value.len() >= 1,
        forall|i: int, j: int|
            0 <= i < m.fields.len() && 0 <= j < m.fields[i].code.len()
                ==> (#[trigger] m.fields[i].code[j]) != '|',
        forall|i: int, j: int|
            0 <= i < m.fields.len() && 0 <= j < m.fields[i].value.len()
                ==> (#[trigger] m.fields[i].value[j]) != '|',
    ensures
        message_of_sip(message_sip(m)) == Some(m),
{
    let t = message_sip(m);
    let code = m.entry.code;
    let fixedcat = fixed_fields_sip(m.fixed_fields);
    let fieldscat = fields_sip(m.fields);
    lemma_catalog_code_len(code);
    lemma_fixed_values_round_trip(m.entry.fixed_fields, m.fixed_fields, fieldscat);
    let total = total_fixed_len(m.entry.fixed_fields) as int;
    assert(t.len() == 2 + total + fieldscat.len());
    assert(t.take(2) =~= code);
    assert(t.skip(2) =~= fixedcat + fieldscat);
    assert(fixed_values_of_text(m.entry.fixed_fields, t.skip(2)) == m.fixed_fields);
    assert(t.skip(2 + total) =~= fieldscat);
    lemma_fields_round_trip(m.fields);
    assert(fields_of_text(t.skip(2 + total)) == m.fields);
    assert(message_of_sip(t) == Some(
        MessageValue {
            entry: m.entry,
            fixed_fields: fixed_values_of_text(m.entry.fixed_fields, t.skip(2)),
            fields: fields_of_text(t.skip(2 + total)),
        },
    ));
    assert(message_of_sip(t)->Some_0 =~= m);
}

/// Short-input rejection: text whose length falls under 2 plus the total
/// fixed-field length of its own message code never decodes.
pub proof fn lemma_short_input_rejected(t: Seq<char>, ms: MessageSpec)
    requires
        t.len() >= 2,
        catalog::message_spec_by_code(t.take(2)) == Some(ms),
        t.len() < 2 + total_fixed_len(ms.fixed_fields),
    ensures
        message_of_sip(t) is None,
{
}

/// Unknown-code rejection: text whose 2-character prefix is absent from the
/// catalog never decodes.
pub proof fn lemma_unknown_code_rejected(t: Seq<char>)
    requires
        t.len() < 2 || catalog::message_spec_by_code(t.take(2)) is None,
    ensures
        message_of_sip(t) is None,
{
}

/// Determinism: the wire text of a message depends on the message value
/// alone, so any two encodings of one message are identical, character for
/// character.
pub proof fn lemma_encode_deterministic(m: MessageValue, s1: Seq<char>, s2: Seq<char>)
    requires
        s1 == message_sip(m),
        s2 == message_sip(m),
    ensures
        s1 == s2,
{
}

} // verus!
