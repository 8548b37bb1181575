//! Entity identities. Every entity carries a 128-bit UUID; identities made from
//! a display number keep that number in their low 48 bits.

use vstd::arithmetic::div_mod::lemma_fundamental_div_mod_converse;
use vstd::arithmetic::power::pow;
use vstd::prelude::*;

verus! {

/// What `uuid::Uuid::parse_str` reads from a text: the 128-bit value, or `None`
/// where the text is not a UUID.
pub uninterp spec fn uuid_of_text(text: Seq<char>) -> Option<u128>;

/// A hexadecimal digit in lower case.
pub open spec fn hexadecimal(digit: int) -> char {
    if digit < 10 {
        (48 + digit) as char
    } else {
        (87 + digit) as char
    }
}

/// The text of a UUID: its hexadecimal digits, with hyphens behind the eighth, twelfth,
/// sixteenth and twentieth of them.
#[verifier::opaque]
pub open spec fn text_of_uuid(value: u128) -> Seq<char> {
    let digits = Seq::new(
        32,
        |i: int| hexadecimal((value as int / pow(16, (31 - i) as nat)) % 16),
    );
    digits.take(8) + seq!['-'] + digits.subrange(8, 12) + seq!['-'] + digits.subrange(12, 16)
        + seq!['-'] + digits.subrange(16, 20) + seq!['-'] + digits.skip(20)
}

/// Wraps `uuid::Uuid::parse_str`: the value of the UUID that the text spells, and
/// `None` where it spells none. Which texts are accepted is left to the crate.
#[verifier::external_body]
pub(crate) fn parse_uuid(text: &str) -> (result: Option<u128>)
    ensures
        result == uuid_of_text(text@),
{
    match uuid::Uuid::parse_str(text) {
        Ok(value) => Some(value.as_u128()),
        Err(_) => None,
    }
}

/// Wraps the `Display` text of `uuid::Uuid`: hyphenated and in lower case, and reading it back
/// gives the value.
#[verifier::external_body]
pub(crate) fn uuid_text(value: u128) -> (result: String)
    ensures
        result@ == text_of_uuid(value),
        uuid_of_text(result@) == Some(value),
{
    uuid::Uuid::from_u128(value).to_string()
}

/// A text that spells an identity: it is the identity's own text and reads back as it.
pub open spec fn spells(text: Seq<char>, value: u128) -> bool {
    text == text_of_uuid(value) && uuid_of_text(text) == Some(value)
}

/// Version four of the UUID layout: the thirteenth hexadecimal digit is a four.
pub open spec fn is_version_four(value: u128) -> bool {
    (value / 0x1000_0000_0000_0000_0000) % 16 == 4
}

pub(crate) fn version_four(value: u128) -> (result: bool)
    ensures
        result == is_version_four(value),
{
    (value / 0x1000_0000_0000_0000_0000) % 16 == 4
}

/// The number shown to the player: the identity's low 48 bits.
pub open spec fn display_number(value: u128) -> int {
    value as int % 0x1_0000_0000_0000
}

/// The identity made from a display number for the entity family `family`.
pub open spec fn numbered(family: int, number: int) -> int {
    family * 0x1_0000_0000_0000_0000_0000_0000 + 0x4000_8000_0000_0000_0000 + number
}

proof fn lemma_numbered(family: int, number: int)
    requires
        0 <= family < 8,
        0 <= number < 0x1_0000_0000_0000,
    ensures
        0 <= numbered(family, number) <= u128::MAX,
        (numbered(family, number) / 0x1000_0000_0000_0000_0000) % 16 == 4,
        numbered(family, number) % 0x1_0000_0000_0000 == number,
{
    let value = numbered(family, number);
    let unit = 0x1000_0000_0000_0000_0000int;
    let low = 0x8000_0000_0000_0000int + number;
    assert(value == (family * 0x10_0000 + 4) * unit + low);
    lemma_fundamental_div_mod_converse(value, unit, family * 0x10_0000 + 4, low);
    let size = 0x1_0000_0000_0000int;
    let high = family * 0x1_0000_0000_0000 + 0x4000_8000;
    assert(value == high * size + number);
    lemma_fundamental_div_mod_converse(value, size, high, number);
}

/// Makes the value of an identity from a display number.
fn number_value(family: u8, number: u64) -> (result: u128)
    requires
        family < 8,
        number < 0x1_0000_0000_0000,
    ensures
        result == numbered(family as int, number as int),
        is_version_four(result),
        display_number(result) == number,
{
    proof {
        lemma_numbered(family as int, number as int);
    }
    family as u128 * 0x1_0000_0000_0000_0000_0000_0000 + 0x4000_8000_0000_0000_0000
        + number as u128
}

/// Identifies a Settlement.
#[derive(Clone, Copy, Debug, PartialEq, Eq, Hash, PartialOrd, Ord, Structural)]
pub struct SettlementId {
    pub value: u128,
}

impl SettlementId {
    /// The identity made from a display number.
    pub fn new(number: u64) -> (result: Self)
        requires
            number < 0x1_0000_0000_0000,
        ensures
            result.value == numbered(1, number as int),
            is_version_four(result.value),
            display_number(result.value) == number,
    {
        SettlementId { value: number_value(1, number) }
    }

    /// The number shown to the player.
    pub fn get(&self) -> (result: u64)
        ensures
            result == display_number(self.value),
    {
        (self.value % 0x1_0000_0000_0000) as u64
    }

    /// Whether this is a version four UUID.
    pub fn is_v4(&self) -> (result: bool)
        ensures
            result == is_version_four(self.value),
    {
        version_four(self.value)
    }

    /// Reads an identity from its text.
    pub fn parse(text: &str) -> (result: Option<Self>)
        ensures
            match result {
                Some(id) => uuid_of_text(text@) == Some(id.value),
                None => uuid_of_text(text@) is None,
            },
    {
        match parse_uuid(text) {
            Some(value) => Some(SettlementId { value }),
            None => None,
        }
    }

    /// The identity's text.
    pub fn text(&self) -> (result: String)
        ensures
            spells(result@, self.value),
    {
        uuid_text(self.value)
    }
}

/// Identifies a Rail Station.
#[derive(Clone, Copy, Debug, PartialEq, Eq, Hash, PartialOrd, Ord, Structural)]
pub struct RailStationId {
    pub value: u128,
}

impl RailStationId {
    /// The identity made from a display number.
    pub fn new(number: u64) -> (result: Self)
        requires
            number < 0x1_0000_0000_0000,
        ensures
            result.value == numbered(2, number as int),
            is_version_four(result.value),
            display_number(result.value) == number,
    {
        RailStationId { value: number_value(2, number) }
    }

    /// The number shown to the player.
    pub fn get(&self) -> (result: u64)
        ensures
            result == display_number(self.value),
    {
        (self.value % 0x1_0000_0000_0000) as u64
    }

    /// Whether this is a version four UUID.
    pub fn is_v4(&self) -> (result: bool)
        ensures
            result == is_version_four(self.value),
    {
        version_four(self.value)
    }

    /// Reads an identity from its text.
    pub fn parse(text: &str) -> (result: Option<Self>)
        ensures
            match result {
                Some(id) => uuid_of_text(text@) == Some(id.value),
                None => uuid_of_text(text@) is None,
            },
    {
        match parse_uuid(text) {
            Some(value) => Some(RailStationId { value }),
            None => None,
        }
    }

    /// The identity's text.
    pub fn text(&self) -> (result: String)
        ensures
            spells(result@, self.value),
    {
        uuid_text(self.value)
    }
}

/// Identifies a Rail Line.
#[derive(Clone, Copy, Debug, PartialEq, Eq, Hash, PartialOrd, Ord, Structural)]
pub struct RailLineId {
    pub value: u128,
}

impl RailLineId {
    /// The identity made from a display number.
    pub fn new(number: u64) -> (result: Self)
        requires
            number < 0x1_0000_0000_0000,
        ensures
            result.value == numbered(3, number as int),
            is_version_four(result.value),
            display_number(result.value) == number,
    {
        RailLineId { value: number_value(3, number) }
    }

    /// The number shown to the player.
    pub fn get(&self) -> (result: u64)
        ensures
            result == display_number(self.value),
    {
        (self.value % 0x1_0000_0000_0000) as u64
    }

    /// Whether this is a version four UUID.
    pub fn is_v4(&self) -> (result: bool)
        ensures
            result == is_version_four(self.value),
    {
        version_four(self.value)
    }

    /// Reads an identity from its text.
    pub fn parse(text: &str) -> (result: Option<Self>)
        ensures
            match result {
                Some(id) => uuid_of_text(text@) == Some(id.value),
                None => uuid_of_text(text@) is None,
            },
    {
        match parse_uuid(text) {
            Some(value) => Some(RailLineId { value }),
            None => None,
        }
    }

    /// The identity's text.
    pub fn text(&self) -> (result: String)
        ensures
            spells(result@, self.value),
    {
        uuid_text(self.value)
    }
}

/// Identifies an Infrastructure Project.
#[derive(Clone, Copy, Debug, PartialEq, Eq, Hash, PartialOrd, Ord, Structural)]
pub struct InfrastructureProjectId {
    pub value: u128,
}

impl InfrastructureProjectId {
    /// The identity made from a display number.
    pub fn new(number: u64) -> (result: Self)
        requires
            number < 0x1_0000_0000_0000,
        ensures
            result.value == numbered(4, number as int),
            is_version_four(result.value),
            display_number(result.value) == number,
    {
        InfrastructureProjectId { value: number_value(4, number) }
    }

    /// The number shown to the player.
    pub fn get(&self) -> (result: u64)
        ensures
            result == display_number(self.value),
    {
        (self.value % 0x1_0000_0000_0000) as u64
    }

    /// Whether this is a version four UUID.
    pub fn is_v4(&self) -> (result: bool)
        ensures
            result == is_version_four(self.value),
    {
        version_four(self.value)
    }

    /// Reads an identity from its text.
    pub fn parse(text: &str) -> (result: Option<Self>)
        ensures
            match result {
                Some(id) => uuid_of_text(text@) == Some(id.value),
                None => uuid_of_text(text@) is None,
            },
    {
        match parse_uuid(text) {
            Some(value) => Some(InfrastructureProjectId { value }),
            None => None,
        }
    }

    /// The identity's text.
    pub fn text(&self) -> (result: String)
        ensures
            spells(result@, self.value),
    {
        uuid_text(self.value)
    }
}

/// Identifies a Train.
#[derive(Clone, Copy, Debug, PartialEq, Eq, Hash, PartialOrd, Ord, Structural)]
pub struct TrainId {
    pub value: u128,
}

impl TrainId {
    /// The identity made from a display number.
    pub fn new(number: u64) -> (result: Self)
        requires
            number < 0x1_0000_0000_0000,
        ensures
            result.value == numbered(5, number as int),
            is_version_four(result.value),
            display_number(result.value) == number,
    {
        TrainId { value: number_value(5, number) }
    }

    /// The number shown to the player.
    pub fn get(&self) -> (result: u64)
        ensures
            result == display_number(self.value),
    {
        (self.value % 0x1_0000_0000_0000) as u64
    }

    /// Whether this is a version four UUID.
    pub fn is_v4(&self) -> (result: bool)
        ensures
            result == is_version_four(self.value),
    {
        version_four(self.value)
    }

    /// Reads an identity from its text.
    pub fn parse(text: &str) -> (result: Option<Self>)
        ensures
            match result {
                Some(id) => uuid_of_text(text@) == Some(id.value),
                None => uuid_of_text(text@) is None,
            },
    {
        match parse_uuid(text) {
            Some(value) => Some(TrainId { value }),
            None => None,
        }
    }

    /// The identity's text.
    pub fn text(&self) -> (result: String)
        ensures
            spells(result@, self.value),
    {
        uuid_text(self.value)
    }
}

/// Identifies a Passenger Service.
#[derive(Clone, Copy, Debug, PartialEq, Eq, Hash, PartialOrd, Ord, Structural)]
pub struct ServiceId {
    pub value: u128,
}

impl ServiceId {
    /// The identity made from a display number.
    pub fn new(number: u64) -> (result: Self)
        requires
            number < 0x1_0000_0000_0000,
        ensures
            result.value == numbered(6, number as int),
            is_version_four(result.value),
            display_number(result.value) == number,
    {
        ServiceId { value: number_value(6, number) }
    }

    /// The number shown to the player.
    pub fn get(&self) -> (result: u64)
        ensures
            result == display_number(self.value),
    {
        (self.value % 0x1_0000_0000_0000) as u64
    }

    /// Whether this is a version four UUID.
    pub fn is_v4(&self) -> (result: bool)
        ensures
            result == is_version_four(self.value),
    {
        version_four(self.value)
    }

    /// Reads an identity from its text.
    pub fn parse(text: &str) -> (result: Option<Self>)
        ensures
            match result {
                Some(id) => uuid_of_text(text@) == Some(id.value),
                None => uuid_of_text(text@) is None,
            },
    {
        match parse_uuid(text) {
            Some(value) => Some(ServiceId { value }),
            None => None,
        }
    }

    /// The identity's text.
    pub fn text(&self) -> (result: String)
        ensures
            spells(result@, self.value),
    {
        uuid_text(self.value)
    }
}

/// Identifies a Journey.
#[derive(Clone, Copy, Debug, PartialEq, Eq, Hash, PartialOrd, Ord, Structural)]
pub struct JourneyId {
    pub value: u128,
}

impl JourneyId {
    /// The identity made from a display number.
    pub fn new(number: u64) -> (result: Self)
        requires
            number < 0x1_0000_0000_0000,
        ensures
            result.value == numbered(7, number as int),
            is_version_four(result.value),
            display_number(result.value) == number,
    {
        JourneyId { value: number_value(7, number) }
    }

    /// The number shown to the player.
    pub fn get(&self) -> (result: u64)
        ensures
            result == display_number(self.value),
    {
        (self.value % 0x1_0000_0000_0000) as u64
    }

    /// Whether this is a version four UUID.
    pub fn is_v4(&self) -> (result: bool)
        ensures
            result == is_version_four(self.value),
    {
        version_four(self.value)
    }

    /// Reads an identity from its text.
    pub fn parse(text: &str) -> (result: Option<Self>)
        ensures
            match result {
                Some(id) => uuid_of_text(text@) == Some(id.value),
                None => uuid_of_text(text@) is None,
            },
    {
        match parse_uuid(text) {
            Some(value) => Some(JourneyId { value }),
            None => None,
        }
    }

    /// The identity's text.
    pub fn text(&self) -> (result: String)
        ensures
            spells(result@, self.value),
    {
        uuid_text(self.value)
    }
}

} // verus!
