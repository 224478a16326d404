//! The canonical value entry: one fully validated header value, and the single
//! fallible path that turns raw text into such an entry.

use vstd::prelude::*;
use vstd::string::StrSliceExecFns;

verus! {

/// Whether one character may appear in a header value: horizontal tab or any
/// character at or above the space character, except the delete control
/// character. Every other control character is rejected.
pub open spec fn valid_value_char(c: char) -> bool {
    c == '\t' || (c as u32 >= 0x20 && c as u32 != 0x7f)
}

/// Whether a whole text is a syntactically valid header value.
pub open spec fn valid_value_text(s: Seq<char>) -> bool {
    forall|i: int| 0 <= i < s.len() ==> valid_value_char(s[i])
}

/// The position and character of the first disallowed character of a text,
/// if there is one: the parser's diagnostic.
pub open spec fn first_invalid(s: Seq<char>) -> Option<(int, char)>
    decreases s.len(),
{
    if s.len() == 0 {
        None
    } else if !valid_value_char(s[0]) {
        Some((0int, s[0]))
    } else {
        match first_invalid(s.skip(1)) {
            None => None,
            Some(p) => Some((p.0 + 1, p.1)),
        }
    }
}

proof fn lemma_first_invalid_at(s: Seq<char>, i: int)
    requires
        0 <= i < s.len(),
        !valid_value_char(s[i]),
        forall|j: int| 0 <= j < i ==> valid_value_char(s[j]),
    ensures
        first_invalid(s) == Some((i, s[i])),
    decreases i,
{
    if i == 0 {
    } else {
        let t = s.skip(1);
        assert(t[i - 1] == s[i]);
        assert forall|j: int| 0 <= j < i - 1 implies valid_value_char(t[j]) by {
            assert(t[j] == s[j + 1]);
        }
        lemma_first_invalid_at(t, i - 1);
    }
}

/// Law: the parser's diagnostic classifies texts. It is absent exactly on the
/// valid texts, and when present it names the first disallowed character.
pub proof fn lemma_first_invalid_classifies(s: Seq<char>)
    ensures
        first_invalid(s) is None <==> valid_value_text(s),
        first_invalid(s) matches Some(p) ==> 0 <= p.0 < s.len() && p.1 == s[p.0]
            && !valid_value_char(p.1)
            && (forall|j: int| 0 <= j < p.0 ==> valid_value_char(s[j])),
    decreases s.len(),
{
    if s.len() == 0 {
    } else if !valid_value_char(s[0]) {
    } else {
        let t = s.skip(1);
        lemma_first_invalid_classifies(t);
        assert forall|j: int| 0 <= j < t.len() implies t[j] == s[j + 1] by {}
        if first_invalid(t) is None {
            assert forall|i: int| 0 <= i < s.len() implies valid_value_char(s[i]) by {
                if i > 0 {
                    assert(s[i] == t[i - 1]);
                }
            }
        } else {
            let q = first_invalid(t)->Some_0;
            assert(s[q.0 + 1] == t[q.0]);
            assert forall|j: int| 0 <= j < q.0 + 1 implies valid_value_char(s[j]) by {
                if j > 0 {
                    assert(s[j] == t[j - 1]);
                }
            }
            assert(!valid_value_text(s));
        }
    }
}

/// The diagnostic reported when raw text is rejected: the position of the
/// first disallowed character and that character itself.
#[derive(Clone, Copy, Debug, PartialEq, Eq)]
pub struct ParseError {
    /// Position (in characters) of the first disallowed character.
    pub index: usize,
    /// The disallowed character found at that position.
    pub found: char,
}

/// One canonical header value entry: immutable, clone-cheap, and always
/// holding validated text. An entry can only be made from text that passed
/// validation, so the conversion layer never emits an unvalidated value.
pub struct FieldValue {
    inner: String,
}

impl View for FieldValue {
    type V = Seq<char>;

    closed spec fn view(&self) -> Seq<char> {
        self.inner@
    }
}

impl FieldValue {
    #[verifier::type_invariant]
    spec fn inv(self) -> bool {
        valid_value_text(self.inner@)
    }

    /// Parses raw text into a canonical value entry. Succeeds exactly on the
    /// valid texts; on failure reports the first disallowed character.
    pub fn from_text(text: &str) -> (r: Result<FieldValue, ParseError>)
        ensures
            r is Ok <==> valid_value_text(text@),
            r matches Ok(v) ==> v@ == text@,
            r matches Err(e) ==> first_invalid(text@) == Some((e.index as int, e.found)),
    {
        let n = text.unicode_len();
        let mut i: usize = 0;
        while i < n
            invariant
                n == text@.len(),
                i <= n,
                forall|j: int| 0 <= j < i ==> valid_value_char(text@[j]),
            decreases n - i,
        {
            let c = text.get_char(i);
            if !is_valid_value_char(c) {
                proof {
                    lemma_first_invalid_at(text@, i as int);
                }
                return Err(ParseError { index: i, found: c });
            }
            i = i + 1;
        }
        Ok(FieldValue { inner: text.to_owned() })
    }

    /// Borrows the validated text of this entry.
    pub fn as_str(&self) -> (r: &str)
        ensures
            r@ == self@,
            valid_value_text(self@),
    {
        proof {
            use_type_invariant(self);
        }
        self.inner.as_str()
    }

    /// Length of this entry's text, in characters.
    pub fn char_len(&self) -> (n: usize)
        ensures
            n == self@.len(),
    {
        self.inner.as_str().unicode_len()
    }
}

/// Law: every canonical value entry holds validated text, however it was
/// made. The entry's type invariant guarantees it, so no proof obligation
/// falls on the caller.
pub fn entry_text_valid(v: &FieldValue)
    ensures
        valid_value_text(v@),
{
    proof {
        use_type_invariant(v);
    }
}

impl Clone for FieldValue {
    fn clone(&self) -> (r: Self)
        ensures
            r@ == self@,
    {
        proof {
            use_type_invariant(self);
        }
        FieldValue { inner: self.inner.clone() }
    }
}

/// Decides whether one character may appear in a header value.
pub fn is_valid_value_char(c: char) -> (r: bool)
    ensures
        r == valid_value_char(c),
{
    c == '\t' || (c as u32 >= 0x20 && c as u32 != 0x7f)
}

/// The texts of a sequence of entries, in the same order.
pub open spec fn texts_of(entries: Seq<FieldValue>) -> Seq<Seq<char>> {
    entries.map_values(|v: FieldValue| v@)
}

} // verus!
