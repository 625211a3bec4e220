//! Identifiers: market symbols and 128-bit unique ids with their textual forms.

use vstd::prelude::*;
use vstd::string::StringExecFns;

verus! {

/// Market identifier such as `BTCUSDT`. Two symbols are the same when their codes are.
#[derive(Debug, PartialEq, Eq)]
pub struct Symbol {
    pub code: String,
}

impl View for Symbol {
    type V = Seq<char>;

    open spec fn view(&self) -> Seq<char> {
        self.code@
    }
}

impl Clone for Symbol {
    fn clone(&self) -> (r: Symbol)
        ensures
            r == *self,
    {
        Symbol { code: self.code.clone() }
    }
}

impl Symbol {
    /// The symbol with the given code.
    pub fn from_code(code: &str) -> (r: Symbol)
        ensures
            r@ == code@,
    {
        Symbol { code: String::from_str(code) }
    }

    /// The code of the symbol.
    pub fn code(&self) -> (r: &str)
        ensures
            r@ == self@,
    {
        self.code.as_str()
    }

    /// Whether two symbols carry the same code.
    pub fn same_as(&self, other: &Symbol) -> (r: bool)
        ensures
            r == (self@ == other@),
    {
        self.code == other.code
    }
}

/// The sixteen lower-case hexadecimal digits, in order.
pub open spec fn hex_digits() -> Seq<char> {
    seq!['0', '1', '2', '3', '4', '5', '6', '7', '8', '9', 'a', 'b', 'c', 'd', 'e', 'f']
}

/// `16^n`.
pub open spec fn pow16(n: nat) -> int
    decreases n,
{
    if n == 0 {
        1
    } else {
        16 * pow16((n - 1) as nat)
    }
}

/// The 32 lower-case hexadecimal digits of a 128-bit value, most significant first.
pub open spec fn simple_text(value: u128) -> Seq<char> {
    Seq::new(32, |i: int| hex_digits()[(value as int / pow16((31 - i) as nat)) % 16])
}

/// The hyphenated form `8-4-4-4-12` of the same 32 digits.
pub open spec fn hyphenated_text(value: u128) -> Seq<char> {
    let s = simple_text(value);
    s.subrange(0, 8) + seq!['-'] + s.subrange(8, 12) + seq!['-'] + s.subrange(12, 16) + seq!['-']
        + s.subrange(16, 20) + seq!['-'] + s.subrange(20, 32)
}

/// A 128-bit unique identifier.
#[derive(Clone, Copy, Debug, PartialEq, Eq, Structural, Hash)]
pub struct Uuid {
    pub value: u128,
}

impl Uuid {
    /// The identifier with the given 128-bit value.
    pub fn from_u128(value: u128) -> (r: Uuid)
        ensures
            r.value == value,
    {
        Uuid { value }
    }

    /// The 128-bit value of the identifier.
    pub fn as_u128(&self) -> (r: u128)
        ensures
            r == self.value,
    {
        self.value
    }

    /// A fresh random identifier.
    ///
    /// Calls `uuid::Uuid::new_v4`. The value comes from the system's random source, so
    /// nothing is promised of it.
    #[verifier::external_body]
    pub(crate) fn random() -> (r: Uuid) {
        Uuid { value: uuid::Uuid::new_v4().as_u128() }
    }

    /// The hyphenated lower-case text of the identifier, 36 characters long.
    ///
    /// Calls `uuid::Uuid::from_u128` and the `Display` of `uuid::fmt::Hyphenated`, which
    /// writes the sixteen bytes most significant first as lower-case hexadecimal with
    /// hyphens after the 8th, 12th, 16th and 20th digit.
    #[verifier::external_body]
    pub(crate) fn hyphenated(&self) -> (r: String)
        ensures
            r@ == hyphenated_text(self.value),
    {
        uuid::Uuid::from_u128(self.value).hyphenated().to_string()
    }

    /// The lower-case text of the identifier without hyphens, 32 characters long.
    ///
    /// Calls `uuid::Uuid::from_u128` and the `Display` of `uuid::fmt::Simple`, which
    /// writes the sixteen bytes most significant first as lower-case hexadecimal.
    #[verifier::external_body]
    pub(crate) fn simple(&self) -> (r: String)
        ensures
            r@ == simple_text(self.value),
    {
        uuid::Uuid::from_u128(self.value).simple().to_string()
    }

    /// The text under which the identifier appears in order ids and logs.
    pub fn to_text(&self) -> (r: String)
        ensures
            r@ == hyphenated_text(self.value),
    {
        self.hyphenated()
    }
}

} // verus!
