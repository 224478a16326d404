//! The laws of the conversion contract, stated over the spec functions that
//! the contracts of `to_header_values` and the iterators use.

use vstd::prelude::*;

use std::borrow::Cow;

use crate::convert::{Field, ToHeaderValues};
use crate::value::{lemma_first_invalid_classifies, texts_of, valid_value_char, valid_value_text,
    FieldValue};
use crate::values::HeaderValues;

verus! {

/// Law: a strongly-typed field never fails to convert, and resolves to the
/// one-element sequence holding exactly its resolved value.
pub proof fn lemma_field_conversion<T: Field>(f: &T)
    ensures
        <T as ToHeaderValues>::conversion_failure(f) is None,
        <T as ToHeaderValues>::resolved_values(f) == seq![f.value_text()],
{
}

/// Law: a canonical value entry never fails to convert, and resolves to the
/// one-element sequence holding a clone of itself.
pub proof fn lemma_entry_conversion(v: &FieldValue)
    ensures
        <FieldValue as ToHeaderValues>::conversion_failure(v) is None,
        <FieldValue as ToHeaderValues>::resolved_values(v) == seq![v@],
{
}

/// Law: a borrowed multi-value container never fails to convert, and resolves
/// to exactly its entries' texts, in the container's own order.
pub proof fn lemma_container_conversion(c: &HeaderValues)
    ensures
        <&HeaderValues as ToHeaderValues>::conversion_failure(&c) is None,
        <&HeaderValues as ToHeaderValues>::resolved_values(&c) == c@,
{
}

/// Law: a slice of entries converts exactly as the container holding the same
/// entries in the same order does — same success, same resolved texts.
pub proof fn lemma_slice_matches_container(entries: &[FieldValue], c: &HeaderValues)
    requires
        texts_of(entries@) == c@,
    ensures
        <&[FieldValue] as ToHeaderValues>::conversion_failure(&entries)
            == <&HeaderValues as ToHeaderValues>::conversion_failure(&c),
        <&[FieldValue] as ToHeaderValues>::resolved_values(&entries)
            == <&HeaderValues as ToHeaderValues>::resolved_values(&c),
{
}

/// Law: borrowed text converts successfully exactly when it is a valid header
/// value; on success it resolves to the one-element sequence holding that
/// text, and on failure the diagnostic names the first disallowed character.
pub proof fn lemma_text_conversion(t: &str)
    ensures
        <&str as ToHeaderValues>::conversion_failure(&t) is None <==> valid_value_text(t@),
        <&str as ToHeaderValues>::resolved_values(&t) == seq![t@],
        <&str as ToHeaderValues>::conversion_failure(&t) matches Some(p) ==> 0 <= p.0 < t@.len()
            && p.1 == t@[p.0] && !valid_value_char(p.1) && (forall|j: int|
            0 <= j < p.0 ==> valid_value_char(t@[j])),
{
    lemma_first_invalid_classifies(t@);
}

/// Law: an owned text buffer, a reference to it, a borrowed view of the same
/// text and a copy-on-write wrapper over it all convert alike — the same
/// success or failure, the same resolved texts, the same diagnostic.
pub proof fn lemma_text_shapes_agree<'a>(owned: &String, borrowed: &str, shared: &Cow<'a, str>)
    requires
        owned@ == borrowed@,
        shared@ == borrowed@,
    ensures
        <String as ToHeaderValues>::conversion_failure(owned) == <&str as ToHeaderValues>::conversion_failure(&borrowed),
        <String as ToHeaderValues>::resolved_values(owned) == <&str as ToHeaderValues>::resolved_values(&borrowed),
        <&String as ToHeaderValues>::conversion_failure(&owned) == <&str as ToHeaderValues>::conversion_failure(&borrowed),
        <&String as ToHeaderValues>::resolved_values(&owned) == <&str as ToHeaderValues>::resolved_values(&borrowed),
        <Cow<'a, str> as ToHeaderValues>::conversion_failure(shared) == <&str as ToHeaderValues>::conversion_failure(&borrowed),
        <Cow<'a, str> as ToHeaderValues>::resolved_values(shared) == <&str as ToHeaderValues>::resolved_values(&borrowed),
{
}

} // verus!
