//! The conversion contract: one operation, "resolve to header values",
//! implemented by every representation that can stand in for a header value
//! (or set of values) at a call boundary. Only the raw-text variants can
//! fail; every other variant is infallible by construction.

use vstd::prelude::*;

use std::borrow::Cow;

use crate::iter::{ClonedValuesIter, HeaderValueIter, SingleValueIter};
use crate::value::{first_invalid, lemma_first_invalid_classifies, texts_of, FieldValue,
    ParseError};
use crate::values::HeaderValues;

verus! {

/// The one conversion-level error: raw text could not be parsed as a header
/// value. It carries the parser's diagnostic as context.
#[derive(Clone, Copy, Debug, PartialEq, Eq)]
pub struct ConversionError {
    /// The parser's diagnostic: the first disallowed character and where.
    pub cause: ParseError,
}

/// A strongly-typed header field: a domain type that deterministically
/// resolves to exactly one canonical value entry, without ever failing.
pub trait Field {
    /// The text of the one value this field resolves to.
    spec fn value_text(&self) -> Seq<char>;

    /// Resolves this field to its canonical value entry.
    fn field_value(&self) -> (r: FieldValue)
        ensures
            r@ == self.value_text(),
    ;
}

/// The simplest strongly-typed field: one that always resolves to the entry
/// it was built from.
pub struct ConstantField {
    value: FieldValue,
}

impl ConstantField {
    /// A field that resolves to exactly the given entry.
    pub fn new(value: FieldValue) -> (r: ConstantField)
        ensures
            r.value_text() == value@,
    {
        ConstantField { value }
    }
}

impl Field for ConstantField {
    closed spec fn value_text(&self) -> Seq<char> {
        self.value@
    }

    fn field_value(&self) -> (r: FieldValue) {
        self.value.clone()
    }
}

/// A trait for objects which can be converted or resolved to one or more
/// header values.
///
/// Each implementor fixes, as spec functions, the texts it resolves to and
/// the diagnostic on which it fails; `to_header_values` then returns a
/// pull-based sequence yielding exactly those texts, or that one error.
/// Implementations never mutate their receiver.
pub trait ToHeaderValues {
    /// Returned iterator over header values which this type may correspond
    /// to.
    type Iter: HeaderValueIter;

    /// The diagnostic on which conversion of this source fails, if it fails.
    /// `None` for every infallible source.
    spec fn conversion_failure(&self) -> Option<(int, char)>;

    /// The texts of the header values this source resolves to, in source
    /// order.
    spec fn resolved_values(&self) -> Seq<Seq<char>>;

    /// Converts this object to an iterator of resolved header values.
    fn to_header_values(&self) -> (r: Result<Self::Iter, ConversionError>)
        ensures
            match r {
                Ok(it) => self.conversion_failure() is None && it.remaining()
                    == self.resolved_values(),
                Err(e) => self.conversion_failure() == Some(
                    (e.cause.index as int, e.cause.found),
                ),
            },
    ;
}

impl<T: Field> ToHeaderValues for T {
    type Iter = SingleValueIter;

    open spec fn conversion_failure(&self) -> Option<(int, char)> {
        None
    }

    open spec fn resolved_values(&self) -> Seq<Seq<char>> {
        seq![self.value_text()]
    }

    fn to_header_values(&self) -> (r: Result<SingleValueIter, ConversionError>) {
        Ok(SingleValueIter::new(self.field_value()))
    }
}

impl ToHeaderValues for FieldValue {
    type Iter = SingleValueIter;

    open spec fn conversion_failure(&self) -> Option<(int, char)> {
        None
    }

    open spec fn resolved_values(&self) -> Seq<Seq<char>> {
        seq![self@]
    }

    fn to_header_values(&self) -> (r: Result<SingleValueIter, ConversionError>) {
        Ok(SingleValueIter::new(self.clone()))
    }
}

impl<'a> ToHeaderValues for &'a HeaderValues {
    type Iter = ClonedValuesIter<'a>;

    open spec fn conversion_failure(&self) -> Option<(int, char)> {
        None
    }

    open spec fn resolved_values(&self) -> Seq<Seq<char>> {
        (*self)@
    }

    fn to_header_values(&self) -> (r: Result<ClonedValuesIter<'a>, ConversionError>) {
        let source: &'a HeaderValues = *self;
        Ok(ClonedValuesIter::new(source.as_slice()))
    }
}

impl<'a> ToHeaderValues for &'a [FieldValue] {
    type Iter = ClonedValuesIter<'a>;

    open spec fn conversion_failure(&self) -> Option<(int, char)> {
        None
    }

    open spec fn resolved_values(&self) -> Seq<Seq<char>> {
        texts_of((*self)@)
    }

    fn to_header_values(&self) -> (r: Result<ClonedValuesIter<'a>, ConversionError>) {
        let entries: &'a [FieldValue] = *self;
        Ok(ClonedValuesIter::new(entries))
    }
}

impl<'a> ToHeaderValues for &'a str {
    type Iter = SingleValueIter;

    open spec fn conversion_failure(&self) -> Option<(int, char)> {
        first_invalid((*self)@)
    }

    open spec fn resolved_values(&self) -> Seq<Seq<char>> {
        seq![(*self)@]
    }

    fn to_header_values(&self) -> (r: Result<SingleValueIter, ConversionError>) {
        proof {
            lemma_first_invalid_classifies((*self)@);
        }
        match FieldValue::from_text(*self) {
            Ok(v) => Ok(SingleValueIter::new(v)),
            Err(e) => Err(ConversionError { cause: e }),
        }
    }
}

impl ToHeaderValues for String {
    type Iter = SingleValueIter;

    open spec fn conversion_failure(&self) -> Option<(int, char)> {
        first_invalid(self@)
    }

    open spec fn resolved_values(&self) -> Seq<Seq<char>> {
        seq![self@]
    }

    fn to_header_values(&self) -> (r: Result<SingleValueIter, ConversionError>) {
        let s: &str = self.as_str();
        s.to_header_values()
    }
}

impl ToHeaderValues for &String {
    type Iter = SingleValueIter;

    open spec fn conversion_failure(&self) -> Option<(int, char)> {
        first_invalid((*self)@)
    }

    open spec fn resolved_values(&self) -> Seq<Seq<char>> {
        seq![(*self)@]
    }

    fn to_header_values(&self) -> (r: Result<SingleValueIter, ConversionError>) {
        let s: &str = self.as_str();
        s.to_header_values()
    }
}

impl<'a> ToHeaderValues for Cow<'a, str> {
    type Iter = SingleValueIter;

    open spec fn conversion_failure(&self) -> Option<(int, char)> {
        first_invalid(self@)
    }

    open spec fn resolved_values(&self) -> Seq<Seq<char>> {
        seq![self@]
    }

    fn to_header_values(&self) -> (r: Result<SingleValueIter, ConversionError>) {
        let s: &str = match self {
            Cow::Borrowed(b) => *b,
            Cow::Owned(o) => o.as_str(),
        };
        s.to_header_values()
    }
}

} // verus!
