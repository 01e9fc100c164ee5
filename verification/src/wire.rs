//! Shared decoding for the integer enums openvpn3 puts on the bus.

use crate::text::{decimal, decimal_text, law_numerals_stand_for_their_number, numeral_value};
use vstd::prelude::*;
use vstd::string::*;

verus! {

/// A numeric value openvpn3 sent that this build does not know about.
///
/// Carried rather than panicked on: a newer openvpn3 introducing a code should
/// degrade to "here is what I did not understand", not take the panel applet
/// down with it.
#[derive(Debug, Clone, Copy, PartialEq, Eq)]
pub struct UnknownWireValue {
    pub kind: &'static str,
    pub value: u32,
}

impl UnknownWireValue {
    /// The text of the error: which enum was being decoded, and what came.
    pub open spec fn text(self) -> Seq<char> {
        "unknown "@ + self.kind@ + " value from openvpn3: "@ + decimal(self.value as nat)
    }

    /// What went wrong, in words.
    pub fn to_string(&self) -> (text: String)
        ensures
            text@ == self.text(),
    {
        let mut text = "unknown ".to_owned();
        text.append(self.kind);
        text.append(" value from openvpn3: ");
        text.append(decimal_text(self.value as u64).as_str());
        text
    }
}

/// What went wrong names the enum and, behind it, the number that came.
pub proof fn law_unknown_values_are_named(unknown: UnknownWireValue) -> (numeral: Seq<char>)
    ensures
        unknown.text() == "unknown "@ + unknown.kind@ + " value from openvpn3: "@ + numeral,
        numeral_value(numeral) == unknown.value,
        numeral.len() > 0,
{
    law_numerals_stand_for_their_number(unknown.value as nat);
    decimal(unknown.value as nat)
}

} // verus!
