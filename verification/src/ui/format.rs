//! Amounts, distances and durations as the player reads them.

use vstd::prelude::*;
use vstd::string::StringExecFns;

use crate::model::units::Money;
use crate::text::{decimal, decimal_text, grouped, grouped_text, zero_pad, zero_padded};

verus! {

pub open spec fn magnitude(value: int) -> nat {
    if value < 0 {
        (-value) as nat
    } else {
        value as nat
    }
}

/// An amount without its sign: dollars in groups of three, and two digits of cents.
pub open spec fn dollars(cents: nat) -> Seq<char> {
    "$"@ + grouped(cents / 100) + "."@ + zero_padded(cents % 100, 2)
}

/// An amount: a minus sign only where it is negative.
pub open spec fn money_text(cents: int) -> Seq<char> {
    if cents < 0 {
        "-"@ + dollars(magnitude(cents))
    } else {
        dollars(magnitude(cents))
    }
}

/// A result: a sign wherever it is not zero.
pub open spec fn signed_text(cents: int) -> Seq<char> {
    if cents > 0 {
        "+"@ + dollars(magnitude(cents))
    } else {
        money_text(cents)
    }
}

fn dollars_text(cents: u128) -> (result: String)
    ensures
        result@ == dollars(cents as nat),
{
    let whole = grouped_text(cents / 100);
    let rest = zero_pad((cents % 100) as u64, 2);
    "$".to_owned().concat(whole.as_str()).concat(".").concat(rest.as_str())
}

pub fn money(amount: Money) -> (result: String)
    ensures
        result@ == money_text(amount.cents as int),
{
    if amount.cents < 0 {
        let text = dollars_text((-(amount.cents as i128)) as u128);
        "-".to_owned().concat(text.as_str())
    } else {
        dollars_text(amount.cents as u128)
    }
}

/// An amount in cents: a minus sign only where it is negative.
pub fn cents_text(cents: i128) -> (result: String)
    requires
        cents > i128::MIN,
    ensures
        result@ == money_text(cents as int),
{
    if cents < 0 {
        let text = dollars_text((-cents) as u128);
        "-".to_owned().concat(text.as_str())
    } else {
        dollars_text(cents as u128)
    }
}

pub fn signed_cents(cents: i128) -> (result: String)
    requires
        cents > i128::MIN,
    ensures
        result@ == signed_text(cents as int),
{
    if cents > 0 {
        let text = dollars_text(cents as u128);
        "+".to_owned().concat(text.as_str())
    } else if cents < 0 {
        let text = dollars_text((-cents) as u128);
        "-".to_owned().concat(text.as_str())
    } else {
        dollars_text(0)
    }
}

/// A distance in kilometres with one digit behind the point.
pub open spec fn distance_text(metres: nat) -> Seq<char> {
    decimal(metres / 1000) + "."@ + decimal((metres % 1000) / 100) + " km"@
}

pub fn distance(metres: u64) -> (result: String)
    ensures
        result@ == distance_text(metres as nat),
{
    let tenths = decimal_text((metres % 1000) / 100);
    decimal_text(metres / 1000).concat(".").concat(tenths.as_str()).concat(" km")
}

/// A duration in its two largest units.
pub open spec fn compact_text(seconds: nat) -> Seq<char> {
    let minutes = seconds / 60;
    let hours = minutes / 60;
    let days = hours / 24;
    if seconds < 60 {
        decimal(seconds) + "s"@
    } else if minutes < 60 {
        decimal(minutes) + "m"@
    } else if hours < 24 {
        if minutes % 60 == 0 {
            decimal(hours) + "h"@
        } else {
            decimal(hours) + "h "@ + decimal(minutes % 60) + "m"@
        }
    } else if hours % 24 == 0 {
        decimal(days) + "d"@
    } else {
        decimal(days) + "d "@ + decimal(hours % 24) + "h"@
    }
}

pub fn compact_duration(seconds: u64) -> (result: String)
    ensures
        result@ == compact_text(seconds as nat),
{
    if seconds < 60 {
        return decimal_text(seconds).concat("s");
    }
    let minutes: u64 = seconds / 60;
    if minutes < 60 {
        return decimal_text(minutes).concat("m");
    }
    let hours: u64 = minutes / 60;
    if hours < 24 {
        if minutes % 60 == 0 {
            return decimal_text(hours).concat("h");
        }
        let rest = decimal_text(minutes % 60);
        return decimal_text(hours).concat("h ").concat(rest.as_str()).concat("m");
    }
    let days: u64 = hours / 24;
    if hours % 24 == 0 {
        decimal_text(days).concat("d")
    } else {
        let rest = decimal_text(hours % 24);
        decimal_text(days).concat("d ").concat(rest.as_str()).concat("h")
    }
}

} // verus!
