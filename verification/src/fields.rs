//! Payload field validation: report which of a record's optional fields are
//! absent or hold an empty text value.
//!
//! The validator works over heterogeneous optional-field records where most
//! fields are optional text but some are optional non-text values (for
//! example counters) that have no natural emptiness. Each field is therefore
//! handed over as a [`FieldValue`] that says up front whether the field is
//! absent, holds text, or holds a present non-text value.

use vstd::prelude::*;

verus! {

/// The value of one optional field of a record, as the validator sees it.
#[derive(Debug, Clone)]
pub enum FieldValue {
    /// No value is present for the field.
    Absent,
    /// A present text value; only text can be empty.
    Text(String),
    /// A present value of some non-text type (for example a number). Such a
    /// value has no natural emptiness and is always taken as present.
    Other,
}

/// One field of a record: its identifier and its value.
#[derive(Debug, Clone)]
pub struct NamedField {
    pub name: String,
    pub value: FieldValue,
}

/// A field counts as missing when no value is present, or when the present
/// value is text and that text is empty. A present non-text value never
/// counts as missing.
pub open spec fn missing_or_empty(v: FieldValue) -> bool {
    match v {
        FieldValue::Absent => true,
        FieldValue::Text(s) => s@.len() == 0,
        FieldValue::Other => false,
    }
}

/// The names of the fields that count as missing, in the order the fields
/// were given.
pub open spec fn missing_names(fields: Seq<NamedField>) -> Seq<Seq<char>>
    decreases fields.len(),
{
    if fields.len() == 0 {
        Seq::empty()
    } else {
        let rest = missing_names(fields.drop_last());
        if missing_or_empty(fields.last().value) {
            rest.push(fields.last().name@)
        } else {
            rest
        }
    }
}

/// Report which of the given fields are absent or hold an empty text value.
///
/// The output lists the names of the qualifying fields in the input order,
/// without reordering or deduplication; it is empty when no field qualifies.
pub fn find_missing_or_empty(fields: &Vec<NamedField>) -> (r: Vec<String>)
    ensures
        r.deep_view() == missing_names(fields@),
{
    let mut out: Vec<String> = Vec::new();
    let n = fields.len();
    let mut i: usize = 0;
    while i < n
        invariant
            n == fields@.len(),
            i <= n,
            out.deep_view() == missing_names(fields@.take(i as int)),
        decreases n - i,
    {
        let missing = match &fields[i].value {
            FieldValue::Absent => true,
            FieldValue::Text(s) => s.as_str().is_empty(),
            FieldValue::Other => false,
        };
        proof {
            let pre = fields@.take(i as int);
            let post = fields@.take(i as int + 1);
            assert(post.drop_last() =~= pre);
            assert(post.last() == fields@[i as int]);
        }
        if missing {
            let ghost pre_out = out.deep_view();
            out.push(fields[i].name.clone());
            proof {
                assert(out.deep_view() =~= pre_out.push(fields@[i as int].name@));
            }
        }
        i = i + 1;
    }
    proof {
        assert(fields@.take(n as int) =~= fields@);
    }
    out
}

/// A record whose named fields are all absent is reported whole: the output
/// is the full list of field names, in the original order.
pub proof fn lemma_all_absent_all_reported(fields: Seq<NamedField>)
    requires
        forall|i: int| 0 <= i < fields.len() ==> (#[trigger] fields[i].value) is Absent,
    ensures
        missing_names(fields) == fields.map_values(|f: NamedField| f.name@),
    decreases fields.len(),
{
    if fields.len() == 0 {
        assert(missing_names(fields) =~= fields.map_values(|f: NamedField| f.name@));
    } else {
        lemma_all_absent_all_reported(fields.drop_last());
        assert(fields[fields.len() - 1].value is Absent);
        assert(missing_names(fields) =~= fields.map_values(|f: NamedField| f.name@));
    }
}

/// A record whose named fields all hold non-empty text is reported empty.
pub proof fn lemma_all_filled_none_reported(fields: Seq<NamedField>)
    requires
        forall|i: int| 0 <= i < fields.len() ==> ((#[trigger] fields[i].value) matches FieldValue::Text(
            t,
        ) && t@.len() > 0),
    ensures
        missing_names(fields) == Seq::<Seq<char>>::empty(),
    decreases fields.len(),
{
    if fields.len() == 0 {
        assert(missing_names(fields) =~= Seq::<Seq<char>>::empty());
    } else {
        lemma_all_filled_none_reported(fields.drop_last());
        assert(fields[fields.len() - 1].value matches FieldValue::Text(t) && t@.len() > 0);
        assert(missing_names(fields) =~= Seq::<Seq<char>>::empty());
    }
}

/// A present non-text field is never reported, however its value might
/// compare to zero or a default: adding one to a record changes nothing.
pub proof fn lemma_non_text_field_not_reported(fields: Seq<NamedField>, f: NamedField)
    requires
        f.value is Other,
    ensures
        missing_names(fields.push(f)) == missing_names(fields),
{
    assert(fields.push(f).drop_last() =~= fields);
    assert(fields.push(f).last() == f);
}

} // verus!
