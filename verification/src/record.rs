//! The record type and its constructor.

use vstd::prelude::*;
use vstd::std_specs::cmp::PartialEqSpec;

verus! {

/// What an [`Example`] is, mathematically: a number and a sequence of
/// characters.
pub struct ExampleView {
    pub some_int: nat,
    pub some_string: Seq<char>,
}

/// A record of two fields that are always set together.
#[derive(Debug)]
pub struct Example {
    pub some_int: u32,
    pub some_string: String,
}

impl View for Example {
    type V = ExampleView;

    open spec fn view(&self) -> ExampleView {
        ExampleView { some_int: self.some_int as nat, some_string: self.some_string@ }
    }
}

impl Example {
    /// Lends out the text alone, for writing. The number stays with the
    /// record and is not touched: once the loan ends, the record holds the
    /// number it had and the text as the borrower left it.
    pub fn some_string_mut(&mut self) -> (s: &mut String)
        ensures
            *s == old(self).some_string,
            final(self).some_int == old(self).some_int,
            final(self).some_string == *final(s),
    {
        &mut self.some_string
    }
}

impl PartialEq for Example {
    /// Two records are equal when their numbers and their texts are.
    fn eq(&self, other: &Self) -> (r: bool) {
        self.some_int == other.some_int && self.some_string == other.some_string
    }
}

impl Eq for Example {

}

impl vstd::std_specs::cmp::PartialEqSpecImpl for Example {
    open spec fn obeys_eq_spec() -> bool {
        true
    }

    open spec fn eq_spec(&self, other: &Self) -> bool {
        self@ == other@
    }
}

/// The value of the one record that [`test`] builds.
pub open spec fn fixed_record() -> ExampleView {
    ExampleView { some_int: 3, some_string: "BLA"@ }
}

/// Builds the fixed record: the number 3 and the text `BLA`.
pub fn test() -> (r: Example)
    ensures
        r@ == fixed_record(),
{
    Example { some_int: 3, some_string: "BLA".to_owned() }
}

/// Two records that the constructor built, in two calls, hold the same
/// number and the same text, and compare equal.
pub proof fn constructor_is_repeatable(a: Example, b: Example)
    requires
        a@ == fixed_record(),
        b@ == fixed_record(),
    ensures
        a@ == b@,
        a.some_int == b.some_int,
        a.some_string@ == b.some_string@,
        a.eq_spec(&b),
{
}

} // verus!
