//! Text for people: numbers in decimal, and the names of the systems.

use crate::entities::SystemType;
use crate::keyed::Text;
use vstd::prelude::*;
use vstd::string::StringExecFns;

verus! {

/// The text of one decimal digit; of any greater number, the text of nine.
pub open spec fn digit_text(digit: nat) -> Text {
    if digit == 0 {
        "0"@
    } else if digit == 1 {
        "1"@
    } else if digit == 2 {
        "2"@
    } else if digit == 3 {
        "3"@
    } else if digit == 4 {
        "4"@
    } else if digit == 5 {
        "5"@
    } else if digit == 6 {
        "6"@
    } else if digit == 7 {
        "7"@
    } else if digit == 8 {
        "8"@
    } else {
        "9"@
    }
}

/// A number written in decimal, without a sign and without leading zeros.
pub open spec fn decimal_text(n: nat) -> Text
    decreases n,
{
    if n < 10 {
        digit_text(n)
    } else {
        decimal_text(n / 10) + digit_text(n % 10)
    }
}

/// The name of a system.
pub open spec fn system_name(system: SystemType) -> Text {
    match system {
        SystemType::Windows => "Windows"@,
        SystemType::MacOS => "MacOS"@,
        SystemType::Linux => "Linux"@,
    }
}

fn digit(d: u64) -> (text: &'static str)
    requires
        d < 10,
    ensures
        text@ == digit_text(d as nat),
{
    if d == 0 {
        "0"
    } else if d == 1 {
        "1"
    } else if d == 2 {
        "2"
    } else if d == 3 {
        "3"
    } else if d == 4 {
        "4"
    } else if d == 5 {
        "5"
    } else if d == 6 {
        "6"
    } else if d == 7 {
        "7"
    } else if d == 8 {
        "8"
    } else {
        "9"
    }
}

/// Writes a number in decimal.
pub fn decimal(n: u64) -> (text: String)
    ensures
        text@ == decimal_text(n as nat),
    decreases n,
{
    if n < 10 {
        digit(n).to_owned()
    } else {
        let mut text = decimal(n / 10);
        text.append(digit(n % 10));
        text
    }
}

/// The name of a system.
pub fn system_label(system: SystemType) -> (name: &'static str)
    ensures
        name@ == system_name(system),
{
    match system {
        SystemType::Windows => "Windows",
        SystemType::MacOS => "MacOS",
        SystemType::Linux => "Linux",
    }
}

} // verus!
