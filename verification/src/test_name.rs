use vstd::prelude::*;
use vstd::string::StrSliceExecFns;
use vstd::string::StringSliceAdditionalSpecFns;

use crate::errors::FatalError;

verus! {

/// Fixed capacity of a test name, in bytes of UTF-8.
///
/// The bound exists because the isolated execution context cannot assume
/// dynamic heap availability for arbitrarily long identifiers.
pub const NAME_CAPACITY: usize = 128;

/// Whether the UTF-8 encoding of `name` fits in `NAME_CAPACITY` bytes.
pub open spec fn name_fits(name: Seq<char>) -> bool {
    vstd::utf8::encode_utf8(name).len() <= NAME_CAPACITY
}

#[verifier::external_type_specification]
#[verifier::external_body]
pub struct ExArrayString<const CAP: usize>(arrayvec::ArrayString<CAP>);

/// The text held by a fixed-capacity `arrayvec::ArrayString`.
pub uninterp spec fn array_string_chars(a: arrayvec::ArrayString<128>) -> Seq<char>;

/// Relies on `arrayvec::ArrayString::from`: it copies `s` whole when the
/// UTF-8 bytes of `s` fit in the capacity, and reports a capacity error
/// otherwise.
#[verifier::external_body]
fn array_string_from(s: &str) -> (r: Option<arrayvec::ArrayString<128>>)
    ensures
        r is Some <==> s.spec_bytes().len() <= NAME_CAPACITY,
        r matches Some(a) ==> array_string_chars(a) == s@,
{
    arrayvec::ArrayString::from(s).ok()
}

/// Relies on `arrayvec::ArrayString::as_str`: it returns the whole stored
/// text.
#[verifier::external_body]
fn array_string_as_str(a: &arrayvec::ArrayString<128>) -> (r: &str)
    ensures
        r@ == array_string_chars(*a),
{
    a.as_str()
}

/// A test's identifier: a fixed-capacity text value holding at most
/// `NAME_CAPACITY` bytes of UTF-8. Constructing one from longer text is a
/// fatal configuration error.
#[derive(Debug)]
pub struct TestName {
    inner: arrayvec::ArrayString<128>,
}

impl View for TestName {
    type V = Seq<char>;

    closed spec fn view(&self) -> Seq<char> {
        array_string_chars(self.inner)
    }
}

impl TestName {
    /// Builds a name from `text`; rejects text whose UTF-8 encoding exceeds
    /// `NAME_CAPACITY` bytes. Accepted text round-trips unchanged.
    pub fn new(text: &str) -> (r: Result<TestName, FatalError>)
        ensures
            r is Ok <==> name_fits(text@),
            r matches Ok(n) ==> n@ == text@,
            r matches Err(e) ==> e == FatalError::NameTooLong,
    {
        match array_string_from(text) {
            Some(inner) => Ok(TestName { inner }),
            None => Err(FatalError::NameTooLong),
        }
    }

    /// The stored text, unchanged.
    pub fn as_str(&self) -> (r: &str)
        ensures
            r@ == self@,
    {
        array_string_as_str(&self.inner)
    }
}

impl PartialEq for TestName {
    fn eq(&self, other: &TestName) -> (r: bool) {
        str_eq(self.as_str(), other.as_str())
    }
}

impl vstd::std_specs::cmp::PartialEqSpecImpl for TestName {
    open spec fn obeys_eq_spec() -> bool {
        true
    }

    open spec fn eq_spec(&self, other: &TestName) -> bool {
        self@ == other@
    }
}

/// Exact equality of two string slices, character by character.
pub fn str_eq(a: &str, b: &str) -> (r: bool)
    ensures
        r == (a@ == b@),
{
    let a_len = a.unicode_len();
    let b_len = b.unicode_len();
    if a_len != b_len {
        return false;
    }
    let mut i: usize = 0;
    while i < a_len
        invariant
            i <= a_len,
            a_len == a@.len(),
            a_len == b@.len(),
            forall|j: int| 0 <= j < i ==> a@[j] == b@[j],
        decreases a_len - i,
    {
        if a.get_char(i) != b.get_char(i) {
            return false;
        }
        i += 1;
    }
    proof {
        assert(a@ =~= b@);
    }
    true
}

} // verus!
