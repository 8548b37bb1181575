//! Vehicle identities: the keeper's mark, European Vehicle Numbers, nicknames
//! and catalogue model identities.

use vstd::prelude::*;
use vstd::string::StrSliceExecFns;

use super::units::OutOfDomain;
use crate::text::{characters, digit, digit_char, is_trimmed, text_of, trimmed};

verus! {

pub open spec fn upper_letter(character: char) -> bool {
    'A' <= character <= 'Z'
}

/// The mark of a vehicle's keeper: two to five upper-case letters.
#[derive(Clone, Debug, PartialEq, Eq)]
pub struct VehicleKeeperMark {
    pub mark: String,
}

pub open spec fn is_keeper_mark(text: Seq<char>) -> bool {
    2 <= text.len() <= 5 && forall|i: int| 0 <= i < text.len() ==> upper_letter(#[trigger] text[i])
}

/// Whether every character is an upper-case ASCII letter.
pub fn all_upper_letters(text: &str) -> (result: bool)
    ensures
        result == (forall|i: int| 0 <= i < text@.len() ==> upper_letter(#[trigger] text@[i])),
{
    let letters = characters(text);
    let mut i: usize = 0;
    while i < letters.len()
        invariant
            i <= letters.len(),
            letters@ == text@,
            forall|j: int| 0 <= j < i ==> upper_letter(#[trigger] text@[j]),
        decreases letters.len() - i,
    {
        let character = letters[i];
        if !('A' <= character && character <= 'Z') {
            assert(!upper_letter(text@[i as int]));
            return false;
        }
        i += 1;
    }
    true
}

impl VehicleKeeperMark {
    pub fn parse(text: &str) -> (result: Result<Self, OutOfDomain>)
        ensures
            match result {
                Ok(mark) => is_keeper_mark(text@) && mark.mark@ == text@,
                Err(_) => !is_keeper_mark(text@),
            },
    {
        let length: usize = text.unicode_len();
        if length < 2 || length > 5 || !all_upper_letters(text) {
            return Err(OutOfDomain);
        }
        Ok(VehicleKeeperMark { mark: text.to_owned() })
    }

    pub fn as_str(&self) -> (result: &str)
        ensures
            result@ == self.mark@,
    {
        self.mark.as_str()
    }
}

pub open spec fn digit_value(character: char) -> int {
    character as u32 - '0' as u32
}

pub open spec fn is_digit(character: char) -> bool {
    '0' <= character <= '9'
}

/// A European Vehicle Number: two digits of vehicle type, two of the country of
/// registration, four of series, three of unit and one check digit.
#[derive(Clone, Debug, PartialEq, Eq)]
pub struct EuropeanVehicleNumber {
    pub digits: String,
}

/// What a digit adds to the check sum: doubled at even positions, as its digit sum.
pub open spec fn check_term(position: int, value: int) -> int {
    if position % 2 == 0 {
        if 2 * value > 9 {
            2 * value - 9
        } else {
            2 * value
        }
    } else {
        value
    }
}

pub open spec fn check_sum(digits: Seq<char>, count: int) -> int
    decreases count,
{
    if count <= 0 {
        0
    } else {
        check_sum(digits, count - 1) + check_term(count - 1, digit_value(digits[count - 1]))
    }
}

/// The digit that completes eleven digits to a multiple of ten.
pub open spec fn check_digit(digits: Seq<char>) -> int {
    (10 - check_sum(digits, 11) % 10) % 10
}

pub open spec fn is_vehicle_number(text: Seq<char>) -> bool {
    &&& text.len() == 12
    &&& forall|i: int| 0 <= i < 12 ==> is_digit(#[trigger] text[i])
    &&& digit_value(text[11]) == check_digit(text)
}

/// The number spelled by the digits from `from` up to `to`.
pub open spec fn field_value(digits: Seq<char>, from: int, to: int) -> int
    decreases to - from,
{
    if to <= from {
        0
    } else {
        10 * field_value(digits, from, to - 1) + digit_value(digits[to - 1])
    }
}

pub open spec fn vehicle_type(digits: Seq<char>) -> int {
    field_value(digits, 0, 2)
}

pub open spec fn vehicle_registration(digits: Seq<char>) -> int {
    field_value(digits, 2, 4)
}

pub open spec fn vehicle_series(digits: Seq<char>) -> int {
    field_value(digits, 4, 8)
}

pub open spec fn vehicle_unit(digits: Seq<char>) -> int {
    field_value(digits, 8, 11)
}

fn char_value(character: char) -> (result: u32)
    requires
        is_digit(character),
    ensures
        result == digit_value(character),
        result <= 9,
{
    character as u32 - '0' as u32
}

fn computed_check(digits: &Vec<char>) -> (result: u32)
    requires
        digits@.len() >= 11,
        forall|i: int| 0 <= i < 11 ==> is_digit(#[trigger] digits@[i]),
    ensures
        result == check_digit(digits@),
        result <= 9,
{
    let mut sum: u32 = 0;
    let mut i: usize = 0;
    while i < 11
        invariant
            i <= 11,
            digits@.len() >= 11,
            forall|j: int| 0 <= j < 11 ==> is_digit(#[trigger] digits@[j]),
            sum == check_sum(digits@, i as int),
            sum <= 9 * i,
        decreases 11 - i,
    {
        let value: u32 = char_value(digits[i]);
        let term: u32 = if i % 2 == 0 {
            if 2 * value > 9 {
                2 * value - 9
            } else {
                2 * value
            }
        } else {
            value
        };
        assert(term == check_term(i as int, digit_value(digits@[i as int])));
        sum += term;
        i += 1;
    }
    (10 - sum % 10) % 10
}

fn number_of(digits: &Vec<char>, from: usize, to: usize) -> (result: u32)
    requires
        from <= to <= digits@.len(),
        to - from <= 4,
        forall|i: int| from <= i < to ==> is_digit(#[trigger] digits@[i]),
    ensures
        result == field_value(digits@, from as int, to as int),
        to - from <= 2 ==> result <= 99,
        to - from <= 3 ==> result <= 999,
        result <= 9999,
{
    let mut value: u32 = 0;
    let mut i: usize = from;
    while i < to
        invariant
            from <= i <= to <= digits@.len(),
            to - from <= 4,
            forall|j: int| from <= j < to ==> is_digit(#[trigger] digits@[j]),
            value == field_value(digits@, from as int, i as int),
            i == from ==> value == 0,
            i == from + 1 ==> value <= 9,
            i == from + 2 ==> value <= 99,
            i == from + 3 ==> value <= 999,
            i == from + 4 ==> value <= 9999,
        decreases to - i,
    {
        value = 10 * value + char_value(digits[i]);
        i += 1;
    }
    value
}

/// The digits of a vehicle number's fields, without the check digit.
pub open spec fn number_fields(type_code: int, registration: int, series: int, unit: int) -> Seq<
    char,
> {
    seq![
        digit(type_code / 10),
        digit(type_code % 10),
        digit(registration / 10),
        digit(registration % 10),
        digit(series / 1000),
        digit((series / 100) % 10),
        digit((series / 10) % 10),
        digit(series % 10),
        digit(unit / 100),
        digit((unit / 10) % 10),
        digit(unit % 10),
    ]
}

/// Which field values a vehicle number can carry.
pub open spec fn numberable(type_code: int, registration: int, series: int, unit: int) -> bool {
    0 <= type_code <= 99 && 0 <= registration <= 99 && 0 <= series <= 9999 && 1 <= unit <= 999
}

proof fn lemma_digit(value: int)
    requires
        0 <= value <= 9,
    ensures
        is_digit(digit(value)),
        digit_value(digit(value)) == value,
{
}

impl EuropeanVehicleNumber {
    /// The highest unit number of a series.
    pub const MAX_UNIT_NUMBER: u16 = 999;

    pub open spec fn wf(&self) -> bool {
        is_vehicle_number(self.digits@)
    }

    pub fn parse(text: &str) -> (result: Result<Self, OutOfDomain>)
        ensures
            match result {
                Ok(evn) => is_vehicle_number(text@) && evn.digits@ == text@,
                Err(_) => !is_vehicle_number(text@),
            },
    {
        let digits = characters(text);
        if digits.len() != 12 {
            return Err(OutOfDomain);
        }
        let mut i: usize = 0;
        while i < 12
            invariant
                i <= 12,
                digits@.len() == 12,
                digits@ == text@,
                forall|j: int| 0 <= j < i ==> is_digit(#[trigger] digits@[j]),
            decreases 12 - i,
        {
            let character = digits[i];
            if !('0' <= character && character <= '9') {
                assert(!is_digit(text@[i as int]));
                return Err(OutOfDomain);
            }
            i += 1;
        }
        if char_value(digits[11]) != computed_check(&digits) {
            return Err(OutOfDomain);
        }
        Ok(EuropeanVehicleNumber { digits: text.to_owned() })
    }

    /// Composes a vehicle number from its fields and adds the check digit.
    pub fn generate(type_code: u8, registration: u8, series: u16, unit: u16) -> (result: Result<
        Self,
        OutOfDomain,
    >)
        ensures
            match result {
                Ok(evn) => {
                    let fields = number_fields(
                        type_code as int,
                        registration as int,
                        series as int,
                        unit as int,
                    );
                    &&& numberable(type_code as int, registration as int, series as int, unit as int)
                    &&& evn.digits@ == fields.push(digit(check_digit(fields)))
                    &&& evn.wf()
                    &&& vehicle_type(evn.digits@) == type_code
                    &&& vehicle_registration(evn.digits@) == registration
                    &&& vehicle_series(evn.digits@) == series
                    &&& vehicle_unit(evn.digits@) == unit
                },
                Err(_) => !numberable(
                    type_code as int,
                    registration as int,
                    series as int,
                    unit as int,
                ),
            },
    {
        if type_code > 99 || registration > 99 || series > 9999 || unit < 1 || unit > 999 {
            return Err(OutOfDomain);
        }
        let t: u64 = type_code as u64;
        let r: u64 = registration as u64;
        let s: u64 = series as u64;
        let u: u64 = unit as u64;
        let mut digits: Vec<char> = Vec::new();
        digits.push(digit_char(t / 10));
        digits.push(digit_char(t % 10));
        digits.push(digit_char(r / 10));
        digits.push(digit_char(r % 10));
        digits.push(digit_char(s / 1000));
        digits.push(digit_char((s / 100) % 10));
        digits.push(digit_char((s / 10) % 10));
        digits.push(digit_char(s % 10));
        digits.push(digit_char(u / 100));
        digits.push(digit_char((u / 10) % 10));
        digits.push(digit_char(u % 10));
        let ghost fields = number_fields(t as int, r as int, s as int, u as int);
        assert(digits@ =~= fields);
        proof {
            lemma_fields_are_digits(t as int, r as int, s as int, u as int);
        }
        let check: u32 = computed_check(&digits);
        digits.push(digit_char(check as u64));
        proof {
            lemma_composed_number(t as int, r as int, s as int, u as int);
        }
        let text = text_of(&digits);
        Ok(EuropeanVehicleNumber { digits: text })
    }

    pub fn as_str(&self) -> (result: &str)
        ensures
            result@ == self.digits@,
    {
        self.digits.as_str()
    }

    pub fn vehicle_type_code(&self) -> (result: u8)
        requires
            self.wf(),
        ensures
            result == vehicle_type(self.digits@),
    {
        let digits = characters(self.digits.as_str());
        number_of(&digits, 0, 2) as u8
    }

    pub fn registration_code(&self) -> (result: u8)
        requires
            self.wf(),
        ensures
            result == vehicle_registration(self.digits@),
    {
        let digits = characters(self.digits.as_str());
        number_of(&digits, 2, 4) as u8
    }

    pub fn series_code(&self) -> (result: u16)
        requires
            self.wf(),
        ensures
            result == vehicle_series(self.digits@),
    {
        let digits = characters(self.digits.as_str());
        number_of(&digits, 4, 8) as u16
    }

    pub fn unit_number(&self) -> (result: u16)
        requires
            self.wf(),
        ensures
            result == vehicle_unit(self.digits@),
            result <= 999,
    {
        let digits = characters(self.digits.as_str());
        number_of(&digits, 8, 11) as u16
    }
}

proof fn lemma_fields_are_digits(t: int, r: int, s: int, u: int)
    requires
        numberable(t, r, s, u),
    ensures
        number_fields(t, r, s, u).len() == 11,
        forall|i: int| 0 <= i < 11 ==> is_digit(#[trigger] number_fields(t, r, s, u)[i]),
{
    lemma_digit(t / 10);
    lemma_digit(t % 10);
    lemma_digit(r / 10);
    lemma_digit(r % 10);
    lemma_digit(s / 1000);
    lemma_digit((s / 100) % 10);
    lemma_digit((s / 10) % 10);
    lemma_digit(s % 10);
    lemma_digit(u / 100);
    lemma_digit((u / 10) % 10);
    lemma_digit(u % 10);
}

proof fn lemma_short_fields(digits: Seq<char>, from: int)
    ensures
        field_value(digits, from, from + 2) == 10 * digit_value(digits[from]) + digit_value(
            digits[from + 1],
        ),
        field_value(digits, from, from + 3) == 100 * digit_value(digits[from]) + 10 * digit_value(
            digits[from + 1],
        ) + digit_value(digits[from + 2]),
        field_value(digits, from, from + 4) == 1000 * digit_value(digits[from]) + 100
            * digit_value(digits[from + 1]) + 10 * digit_value(digits[from + 2]) + digit_value(
            digits[from + 3],
        ),
{
    assert(field_value(digits, from, from) == 0);
    assert(field_value(digits, from, from + 1) == digit_value(digits[from]));
    assert(field_value(digits, from, from + 2) == 10 * field_value(digits, from, from + 1)
        + digit_value(digits[from + 1]));
    assert(field_value(digits, from, from + 3) == 10 * field_value(digits, from, from + 2)
        + digit_value(digits[from + 2]));
    assert(field_value(digits, from, from + 4) == 10 * field_value(digits, from, from + 3)
        + digit_value(digits[from + 3]));
}

/// Eleven field digits and their check digit make a vehicle number with those fields.
pub proof fn lemma_composed_number(t: int, r: int, s: int, u: int)
    requires
        numberable(t, r, s, u),
    ensures
        ({
            let fields = number_fields(t, r, s, u);
            let all = fields.push(digit(check_digit(fields)));
            &&& is_vehicle_number(all)
            &&& vehicle_type(all) == t
            &&& vehicle_registration(all) == r
            &&& vehicle_series(all) == s
            &&& vehicle_unit(all) == u
        }),
{
    let fields = number_fields(t, r, s, u);
    let check = check_digit(fields);
    let all = fields.push(digit(check));
    lemma_fields_are_digits(t, r, s, u);
    lemma_digit(check);
    lemma_check_sum_prefix(fields, all, 11);
    assert forall|i: int| 0 <= i < 12 implies is_digit(#[trigger] all[i]) by {
        if i < 11 {
            assert(all[i] == fields[i]);
        }
    }
    lemma_short_fields(all, 0);
    lemma_short_fields(all, 2);
    lemma_short_fields(all, 4);
    lemma_short_fields(all, 8);
    lemma_digit(t / 10);
    lemma_digit(t % 10);
    lemma_digit(r / 10);
    lemma_digit(r % 10);
    lemma_digit(s / 1000);
    lemma_digit((s / 100) % 10);
    lemma_digit((s / 10) % 10);
    lemma_digit(s % 10);
    lemma_digit(u / 100);
    lemma_digit((u / 10) % 10);
    lemma_digit(u % 10);
}

proof fn lemma_check_sum_prefix(first: Seq<char>, second: Seq<char>, count: int)
    requires
        0 <= count <= first.len(),
        count <= second.len(),
        forall|i: int| 0 <= i < count ==> first[i] == second[i],
    ensures
        check_sum(first, count) == check_sum(second, count),
    decreases count,
{
    if count > 0 {
        lemma_check_sum_prefix(first, second, count - 1);
    }
}

/// A Train's nickname: one to thirty-two characters without white space around them.
#[derive(Clone, Debug, PartialEq, Eq)]
pub struct TrainNickname {
    pub name: String,
}

impl TrainNickname {
    pub const MAX_CHARACTERS: usize = 32;

    pub open spec fn wf(&self) -> bool {
        1 <= self.name@.len() <= 32 && is_trimmed(self.name@)
    }

    pub fn parse(text: &str) -> (result: Result<Self, OutOfDomain>)
        ensures
            match result {
                Ok(nickname) => nickname.name@ == trimmed(text@) && nickname.wf(),
                Err(_) => !(1 <= trimmed(text@).len() <= 32),
            },
    {
        let name = crate::text::trim(text);
        let length: usize = name.as_str().unicode_len();
        if length < 1 || length > 32 {
            return Err(OutOfDomain);
        }
        Ok(TrainNickname { name })
    }

    pub fn as_str(&self) -> (result: &str)
        ensures
            result@ == self.name@,
    {
        self.name.as_str()
    }
}

/// Identifies a model of the train catalogue.
#[derive(Clone, Debug, PartialEq, Eq)]
pub struct TrainModelId {
    pub name: String,
}

impl TrainModelId {
    pub fn new(name: String) -> (result: Self)
        ensures
            result.name == name,
    {
        TrainModelId { name }
    }

    pub fn as_str(&self) -> (result: &str)
        ensures
            result@ == self.name@,
    {
        self.name.as_str()
    }
}

} // verus!
