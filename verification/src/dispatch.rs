//! The ordered match over a record: which arm takes it, and the line of text
//! that the arm produces.

use crate::record::{fixed_record, Example, ExampleView};
use vstd::prelude::*;

verus! {

/// The arms of the match, in the order in which they are tried.
#[derive(Debug, Clone, Copy, PartialEq, Eq, Structural)]
pub enum Arm {
    /// The number is 3; the text may be anything.
    Three,
    /// Every record that the first arm did not take.
    Anything,
}

/// The first arm, from the top, whose pattern fits the record.
pub open spec fn arm_of(r: ExampleView) -> Arm {
    if r.some_int == 3 {
        Arm::Three
    } else {
        Arm::Anything
    }
}

/// The words that an arm puts in front of the record's text.
pub open spec fn lead_of(arm: Arm) -> Seq<char> {
    match arm {
        Arm::Three => "Int was three, string was "@,
        Arm::Anything => "Int was anything, string was "@,
    }
}

/// The line for a record: the words of the arm that takes it, then the
/// record's text, unchanged.
pub open spec fn line_of(r: ExampleView) -> Seq<char> {
    lead_of(arm_of(r)) + r.some_string
}

impl Example {
    /// Tells which arm takes this record. The arms are tried from the top, and
    /// the last one takes whatever is left, so one always does.
    pub fn matched_arm(&self) -> (arm: Arm)
        ensures
            arm == arm_of(self@),
            arm == Arm::Three <==> self.some_int == 3,
    {
        match self {
            Example { some_int: 3, .. } => Arm::Three,
            Example { .. } => Arm::Anything,
        }
    }

    /// Takes the record apart and writes its line: the text is bound by value
    /// in the arm that matches, and the number is looked at by the first arm
    /// only.
    pub fn describe(self) -> (line: String)
        ensures
            line@ == line_of(self@),
            self.some_int == 3 ==> line@ == "Int was three, string was "@ + self.some_string@,
            self.some_int != 3 ==> line@ == "Int was anything, string was "@ + self.some_string@,
    {
        match self {
            Example { some_int: 3, some_string } => {
                "Int was three, string was ".to_owned().concat(some_string.as_str())
            },
            Example { some_string, .. } => {
                "Int was anything, string was ".to_owned().concat(some_string.as_str())
            },
        }
    }
}

/// Builds the fixed record and writes its line. The first arm takes it, so
/// the line is always the same.
pub fn report() -> (line: String)
    ensures
        line@ == "Int was three, string was BLA"@,
{
    let record = crate::record::test();
    proof {
        fixed_record_takes_first_arm(record);
    }
    record.describe()
}

/// A record that the constructor built is taken by the first arm, and its
/// line is `Int was three, string was BLA`.
pub proof fn fixed_record_takes_first_arm(e: Example)
    requires
        e@ == fixed_record(),
    ensures
        arm_of(e@) == Arm::Three,
        line_of(e@) == "Int was three, string was BLA"@,
{
    reveal_strlit("BLA");
    reveal_strlit("Int was three, string was ");
    reveal_strlit("Int was three, string was BLA");
    assert(line_of(e@) =~= "Int was three, string was BLA"@);
}

} // verus!
