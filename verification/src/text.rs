//! Text primitives: decimal numbers, padding, trimming and comparison over
//! strings viewed as sequences of characters.

use vstd::prelude::*;
use vstd::string::StrSliceExecFns;
use vstd::string::StringExecFns;

verus! {

/// `String::push` appends one character to the end of the string.
pub assume_specification[ String::push ](text: &mut String, character: char)
    ensures
        final(text)@ == old(text)@.push(character),
;

/// Whether a character has Unicode's `White_Space` property.
pub open spec fn white_space(character: char) -> bool {
    let code = character as u32;
    ||| 0x9 <= code <= 0xd
    ||| code == 0x20 || code == 0x85 || code == 0xa0 || code == 0x1680
    ||| 0x2000 <= code <= 0x200a
    ||| code == 0x2028 || code == 0x2029 || code == 0x202f || code == 0x205f || code == 0x3000
}

pub fn is_white_space(character: char) -> (result: bool)
    ensures
        result == white_space(character),
{
    let code: u32 = character as u32;
    (0x9 <= code && code <= 0xd) || code == 0x20 || code == 0x85 || code == 0xa0 || code == 0x1680
        || (0x2000 <= code && code <= 0x200a) || code == 0x2028 || code == 0x2029 || code == 0x202f
        || code == 0x205f || code == 0x3000
}

/// The digit that stands for `value` (below ten).
pub open spec fn digit(value: int) -> char {
    if value == 0 {
        '0'
    } else if value == 1 {
        '1'
    } else if value == 2 {
        '2'
    } else if value == 3 {
        '3'
    } else if value == 4 {
        '4'
    } else if value == 5 {
        '5'
    } else if value == 6 {
        '6'
    } else if value == 7 {
        '7'
    } else if value == 8 {
        '8'
    } else {
        '9'
    }
}

/// The decimal notation of a number, without leading zeros.
pub open spec fn decimal(value: nat) -> Seq<char>
    decreases value,
{
    if value < 10 {
        seq![digit(value as int)]
    } else {
        decimal(value / 10).push(digit((value % 10) as int))
    }
}

pub fn digit_char(value: u64) -> (result: char)
    requires
        value < 10,
    ensures
        result == digit(value as int),
{
    match value {
        0 => '0',
        1 => '1',
        2 => '2',
        3 => '3',
        4 => '4',
        5 => '5',
        6 => '6',
        7 => '7',
        8 => '8',
        _ => '9',
    }
}

/// Appends the decimal notation of `value`.
pub fn push_decimal(text: &mut String, value: u64)
    ensures
        final(text)@ == old(text)@ + decimal(value as nat),
    decreases value,
{
    if value >= 10 {
        push_decimal(text, value / 10);
    }
    text.push(digit_char(value % 10));
    assert(text@ =~= old(text)@ + decimal(value as nat));
}

pub fn decimal_text(value: u64) -> (result: String)
    ensures
        result@ == decimal(value as nat),
{
    let mut text = String::new();
    push_decimal(&mut text, value);
    assert(text@ =~= decimal(value as nat));
    text
}

/// The decimal notation of a large number.
pub fn wide_decimal_text(value: u128) -> (result: String)
    ensures
        result@ == decimal(value as nat),
    decreases value,
{
    if value <= u64::MAX as u128 {
        return decimal_text(value as u64);
    }
    let mut text = wide_decimal_text(value / 10);
    text.push(digit_char((value % 10) as u64));
    assert(text@ =~= decimal(value as nat));
    text
}

/// Whether two texts hold the same characters.
pub fn same_text(first: &str, second: &str) -> (result: bool)
    ensures
        result == (first@ == second@),
{
    first.to_owned() == second.to_owned()
}

/// The characters of a text, in order.
pub fn characters(text: &str) -> (result: Vec<char>)
    ensures
        result@ == text@,
{
    let mut result: Vec<char> = Vec::new();
    for character in iter: text.chars()
        invariant
            result@ == iter.seq().take(iter.index() as int),
            iter.seq() == text@,
    {
        result.push(character);
    }
    assert(result@ =~= text@);
    result
}

/// The text made of the given characters.
pub fn text_of(characters: &Vec<char>) -> (result: String)
    ensures
        result@ == characters@,
{
    let mut result = String::new();
    let mut i: usize = 0;
    while i < characters.len()
        invariant
            i <= characters.len(),
            result@ == characters@.take(i as int),
        decreases characters.len() - i,
    {
        result.push(characters[i]);
        i += 1;
        assert(result@ =~= characters@.take(i as int));
    }
    assert(result@ =~= characters@);
    result
}

/// The first position at or after `from` that holds no white space.
pub open spec fn skip_space(text: Seq<char>, from: int) -> int
    decreases text.len() - from,
{
    if from < 0 || from >= text.len() {
        text.len() as int
    } else if !white_space(text[from]) {
        from
    } else {
        skip_space(text, from + 1)
    }
}

/// The last position before `to` that holds no white space, plus one; zero if there is none.
pub open spec fn skip_space_back(text: Seq<char>, to: int) -> int
    decreases to,
{
    if to <= 0 {
        0
    } else if !white_space(text[to - 1]) {
        to
    } else {
        skip_space_back(text, to - 1)
    }
}

/// A text without the white space around it.
pub open spec fn trimmed(text: Seq<char>) -> Seq<char> {
    let end = skip_space_back(text, text.len() as int);
    let start = skip_space(text, 0);
    if start < end {
        text.subrange(start, end)
    } else {
        Seq::empty()
    }
}

/// A text that neither begins nor ends with white space.
pub open spec fn is_trimmed(text: Seq<char>) -> bool {
    text.len() > 0 ==> !white_space(text[0]) && !white_space(text.last())
}

proof fn lemma_skip_space(text: Seq<char>, from: int)
    requires
        0 <= from <= text.len(),
    ensures
        from <= skip_space(text, from) <= text.len(),
        skip_space(text, from) < text.len() ==> !white_space(text[skip_space(text, from)]),
        forall|i: int| from <= i < skip_space(text, from) ==> white_space(#[trigger] text[i]),
    decreases text.len() - from,
{
    if from < text.len() && white_space(text[from]) {
        lemma_skip_space(text, from + 1);
    }
}

proof fn lemma_skip_space_back(text: Seq<char>, to: int)
    requires
        0 <= to <= text.len(),
    ensures
        0 <= skip_space_back(text, to) <= to,
        skip_space_back(text, to) > 0 ==> !white_space(text[skip_space_back(text, to) - 1]),
        forall|i: int| skip_space_back(text, to) <= i < to ==> white_space(#[trigger] text[i]),
    decreases to,
{
    if to > 0 && white_space(text[to - 1]) {
        lemma_skip_space_back(text, to - 1);
    }
}

/// Trimming leaves no white space at either end, and a text that has none there as it is.
pub proof fn lemma_trimmed(text: Seq<char>)
    ensures
        is_trimmed(trimmed(text)),
        trimmed(text).len() <= text.len(),
        is_trimmed(text) ==> trimmed(text) == text,
        (trimmed(text).len() == 0) == (forall|i: int|
            0 <= i < text.len() ==> white_space(#[trigger] text[i])),
{
    let n = text.len() as int;
    lemma_skip_space(text, 0);
    lemma_skip_space_back(text, n);
    let start = skip_space(text, 0);
    let end = skip_space_back(text, n);
    if is_trimmed(text) && n > 0 {
        assert(start == 0 && end == n);
        assert(text.subrange(0, n) =~= text);
    }
    if n == 0 {
        assert(trimmed(text) =~= text);
    }
    if start < n {
        if end <= start {
            assert(white_space(text[start]));
        }
        assert(!white_space(text[start]));
    }
}

/// Removes the white space around a text.
pub fn trim(text: &str) -> (result: String)
    ensures
        result@ == trimmed(text@),
        is_trimmed(result@),
{
    let all = characters(text);
    let mut start: usize = 0;
    while start < all.len() && is_white_space(all[start])
        invariant
            start <= all.len(),
            all@ == text@,
            skip_space(text@, 0) == skip_space(text@, start as int),
        decreases all.len() - start,
    {
        start += 1;
    }
    assert(start == skip_space(text@, 0));
    let mut end: usize = all.len();
    while end > 0 && is_white_space(all[end - 1])
        invariant
            end <= all.len(),
            all@ == text@,
            skip_space_back(text@, text@.len() as int) == skip_space_back(text@, end as int),
        decreases end,
    {
        end -= 1;
    }
    assert(end == skip_space_back(text@, text@.len() as int));
    let mut result = String::new();
    let mut i: usize = start;
    while i < end
        invariant
            all@ == text@,
            end <= all.len(),
            start <= i,
            start < end ==> i <= end && result@ == text@.subrange(start as int, i as int),
            start >= end ==> result@ == Seq::<char>::empty(),
        decreases end - i,
    {
        result.push(all[i]);
        i += 1;
        assert(result@ =~= text@.subrange(start as int, i as int));
    }
    assert(result@ =~= trimmed(text@));
    proof {
        lemma_trimmed(text@);
    }
    result
}

/// Whether a text holds nothing but white space.
pub fn is_blank(text: &str) -> (result: bool)
    ensures
        result == (trimmed(text@).len() == 0),
{
    trim(text).as_str().unicode_len() == 0
}

/// A Unicode control character: one of the general category `Cc`.
pub open spec fn control(character: char) -> bool {
    character as u32 <= 0x1f || 0x7f <= character as u32 <= 0x9f
}

/// Whether a text holds a control character.
pub fn has_control(text: &str) -> (result: bool)
    ensures
        result == (exists|i: int| 0 <= i < text@.len() && control(#[trigger] text@[i])),
{
    let all = characters(text);
    let mut i: usize = 0;
    while i < all.len()
        invariant
            i <= all.len(),
            all@ == text@,
            forall|j: int| 0 <= j < i ==> !control(#[trigger] text@[j]),
        decreases all.len() - i,
    {
        let code: u32 = all[i] as u32;
        if code <= 0x1f || (0x7f <= code && code <= 0x9f) {
            assert(control(text@[i as int]));
            return true;
        }
        i += 1;
    }
    false
}

/// A character repeated.
pub open spec fn repeated(character: char, count: nat) -> Seq<char> {
    Seq::new(count, |i: int| character)
}

pub fn repeat(character: char, count: usize) -> (result: String)
    ensures
        result@ == repeated(character, count as nat),
{
    let mut text = String::new();
    let mut i: usize = 0;
    while i < count
        invariant
            i <= count,
            text@ == repeated(character, i as nat),
        decreases count - i,
    {
        text.push(character);
        i += 1;
        assert(text@ =~= repeated(character, i as nat));
    }
    assert(text@ =~= repeated(character, count as nat));
    text
}

/// How many characters a text lacks to a width.
pub open spec fn missing(text: Seq<char>, width: nat) -> nat {
    if text.len() < width {
        (width - text.len()) as nat
    } else {
        0
    }
}

/// A text filled with spaces on its right to a width.
pub open spec fn padded_right(text: Seq<char>, width: nat) -> Seq<char> {
    text + repeated(' ', missing(text, width))
}

/// A text filled with a character on its left to a width.
pub open spec fn padded_left(text: Seq<char>, width: nat, character: char) -> Seq<char> {
    repeated(character, missing(text, width)) + text
}

pub fn pad_right(text: &str, width: usize) -> (result: String)
    ensures
        result@ == padded_right(text@, width as nat),
{
    let length: usize = text.unicode_len();
    let gap: usize = if length < width {
        width - length
    } else {
        0
    };
    let filling = repeat(' ', gap);
    text.to_owned().concat(filling.as_str())
}

pub fn pad_left(text: &str, width: usize, character: char) -> (result: String)
    ensures
        result@ == padded_left(text@, width as nat, character),
{
    let length: usize = text.unicode_len();
    let gap: usize = if length < width {
        width - length
    } else {
        0
    };
    repeat(character, gap).concat(text)
}

/// A number with at least so many digits, filled with zeros.
pub open spec fn zero_padded(value: nat, width: nat) -> Seq<char> {
    padded_left(decimal(value), width, '0')
}

pub fn zero_pad(value: u64, width: usize) -> (result: String)
    ensures
        result@ == zero_padded(value as nat, width as nat),
{
    let digits = decimal_text(value);
    pad_left(digits.as_str(), width, '0')
}

/// A signed number with at least so many characters: the sign first, then zeros.
pub open spec fn signed_zero_padded(value: int, width: nat) -> Seq<char> {
    if value < 0 {
        "-"@ + zero_padded(
            (-value) as nat,
            if width > 0 {
                (width - 1) as nat
            } else {
                0
            },
        )
    } else {
        zero_padded(value as nat, width)
    }
}

pub fn signed_zero_pad(value: i64, width: usize) -> (result: String)
    ensures
        result@ == signed_zero_padded(value as int, width as nat),
{
    if value < 0 {
        let magnitude: u64 = (-(value as i128)) as u64;
        let rest: usize = if width > 0 {
            width - 1
        } else {
            0
        };
        let digits = zero_pad(magnitude, rest);
        "-".to_owned().concat(digits.as_str())
    } else {
        zero_pad(value as u64, width)
    }
}

/// A number with its digits in groups of three.
pub open spec fn grouped(value: nat) -> Seq<char>
    decreases value,
{
    if value < 1000 {
        decimal(value)
    } else {
        grouped(value / 1000) + ","@ + zero_padded(value % 1000, 3)
    }
}

pub fn grouped_text(value: u128) -> (result: String)
    ensures
        result@ == grouped(value as nat),
    decreases value,
{
    if value < 1000 {
        decimal_text(value as u64)
    } else {
        let rest = zero_pad((value % 1000) as u64, 3);
        grouped_text(value / 1000).concat(",").concat(rest.as_str())
    }
}

/// Texts with a separator between each two.
pub open spec fn joined(texts: Seq<Seq<char>>, separator: Seq<char>) -> Seq<char>
    decreases texts.len(),
{
    if texts.len() == 0 {
        Seq::empty()
    } else if texts.len() == 1 {
        texts[0]
    } else {
        joined(texts.drop_last(), separator) + separator + texts.last()
    }
}

/// The characters of several strings.
pub open spec fn views(strings: Seq<String>) -> Seq<Seq<char>> {
    Seq::new(strings.len(), |i: int| strings[i]@)
}

pub fn join(strings: &Vec<String>, separator: &str) -> (result: String)
    ensures
        result@ == joined(views(strings@), separator@),
{
    if strings.len() == 0 {
        return String::new();
    }
    let mut text = strings[0].clone();
    let mut i: usize = 1;
    assert(views(strings@).take(1) =~= seq![strings@[0]@]);
    while i < strings.len()
        invariant
            1 <= i <= strings@.len(),
            text@ == joined(views(strings@).take(i as int), separator@),
        decreases strings.len() - i,
    {
        let ghost next = views(strings@).take(i + 1);
        assert(next.drop_last() =~= views(strings@).take(i as int));
        assert(next.last() == strings@[i as int]@);
        text = text.concat(separator).concat(strings[i].as_str());
        i += 1;
    }
    assert(views(strings@).take(strings@.len() as int) =~= views(strings@));
    text
}

/// Lines with a line feed behind each.
pub open spec fn printed(lines: Seq<Seq<char>>) -> Seq<char>
    decreases lines.len(),
{
    if lines.len() == 0 {
        Seq::empty()
    } else {
        printed(lines.drop_last()) + lines.last() + "\n"@
    }
}

pub fn print_lines(lines: &Vec<String>) -> (result: String)
    ensures
        result@ == printed(views(lines@)),
{
    let mut text = String::new();
    let mut i: usize = 0;
    assert(views(lines@).take(0) =~= Seq::<Seq<char>>::empty());
    while i < lines.len()
        invariant
            i <= lines@.len(),
            text@ == printed(views(lines@).take(i as int)),
        decreases lines.len() - i,
    {
        let ghost next = views(lines@).take(i + 1);
        assert(next.drop_last() =~= views(lines@).take(i as int));
        assert(next.last() == lines@[i as int]@);
        text = text.concat(lines[i].as_str()).concat("\n");
        i += 1;
    }
    assert(views(lines@).take(lines@.len() as int) =~= views(lines@));
    text
}

/// Adds a text to a list of strings.
pub fn push_text(lines: &mut Vec<String>, text: String)
    ensures
        views(final(lines)@) == views(old(lines)@).push(text@),
{
    lines.push(text);
    assert(views(lines@) =~= views(old(lines)@).push(text@));
}

/// An ASCII lower-case letter as its upper-case one; every other character unchanged.
pub open spec fn upper(character: char) -> char {
    if character == 'a' {
        'A'
    } else if character == 'b' {
        'B'
    } else if character == 'c' {
        'C'
    } else if character == 'd' {
        'D'
    } else if character == 'e' {
        'E'
    } else if character == 'f' {
        'F'
    } else if character == 'g' {
        'G'
    } else if character == 'h' {
        'H'
    } else if character == 'i' {
        'I'
    } else if character == 'j' {
        'J'
    } else if character == 'k' {
        'K'
    } else if character == 'l' {
        'L'
    } else if character == 'm' {
        'M'
    } else if character == 'n' {
        'N'
    } else if character == 'o' {
        'O'
    } else if character == 'p' {
        'P'
    } else if character == 'q' {
        'Q'
    } else if character == 'r' {
        'R'
    } else if character == 's' {
        'S'
    } else if character == 't' {
        'T'
    } else if character == 'u' {
        'U'
    } else if character == 'v' {
        'V'
    } else if character == 'w' {
        'W'
    } else if character == 'x' {
        'X'
    } else if character == 'y' {
        'Y'
    } else if character == 'z' {
        'Z'
    } else {
        character
    }
}

pub fn upper_char(character: char) -> (result: char)
    ensures
        result == upper(character),
{
    match character {
        'a' => 'A',
        'b' => 'B',
        'c' => 'C',
        'd' => 'D',
        'e' => 'E',
        'f' => 'F',
        'g' => 'G',
        'h' => 'H',
        'i' => 'I',
        'j' => 'J',
        'k' => 'K',
        'l' => 'L',
        'm' => 'M',
        'n' => 'N',
        'o' => 'O',
        'p' => 'P',
        'q' => 'Q',
        'r' => 'R',
        's' => 'S',
        't' => 'T',
        'u' => 'U',
        'v' => 'V',
        'w' => 'W',
        'x' => 'X',
        'y' => 'Y',
        'z' => 'Z',
        _ => character,
    }
}

pub open spec fn upper_case(text: Seq<char>) -> Seq<char> {
    Seq::new(text.len(), |i: int| upper(text[i]))
}

/// A text with its ASCII letters in upper case.
pub fn to_upper_case(text: &str) -> (result: String)
    ensures
        result@ == upper_case(text@),
{
    let all = characters(text);
    let mut result = String::new();
    let mut i: usize = 0;
    while i < all.len()
        invariant
            i <= all@.len(),
            all@ == text@,
            result@ == upper_case(text@).take(i as int),
        decreases all.len() - i,
    {
        result.push(upper_char(all[i]));
        i += 1;
        assert(result@ =~= upper_case(text@).take(i as int));
    }
    assert(result@ =~= upper_case(text@));
    result
}

/// Whether a text holds another from a position on.
pub open spec fn holds_at(text: Seq<char>, part: Seq<char>, at: int) -> bool {
    0 <= at && at + part.len() <= text.len() && text.subrange(at, at + part.len()) == part
}

/// Whether a text begins with another.
pub open spec fn begins_with(text: Seq<char>, prefix: Seq<char>) -> bool {
    holds_at(text, prefix, 0)
}

/// The first position at or after `from` at which a text holds another.
pub open spec fn find_from(text: Seq<char>, part: Seq<char>, from: int) -> Option<int>
    decreases text.len() - from + 1,
{
    if from < 0 || from + part.len() > text.len() {
        None
    } else if holds_at(text, part, from) {
        Some(from)
    } else {
        find_from(text, part, from + 1)
    }
}

fn part_at(text: &Vec<char>, part: &Vec<char>, at: usize) -> (result: bool)
    requires
        at + part@.len() <= text@.len(),
    ensures
        result == holds_at(text@, part@, at as int),
{
    let length: usize = text.len();
    let mut i: usize = 0;
    while i < part.len()
        invariant
            i <= part@.len(),
            at + part@.len() <= length == text@.len(),
            forall|j: int| 0 <= j < i ==> text@[at + j] == part@[j],
        decreases part.len() - i,
    {
        if text[at + i] != part[i] {
            proof {
                let window = text@.subrange(at as int, at + part@.len());
                assert(window[i as int] != part@[i as int]);
            }
            return false;
        }
        i += 1;
    }
    assert(text@.subrange(at as int, at + part@.len()) =~= part@);
    true
}

/// Finds the first position at or after `from`, counted in characters, of one text in another.
pub fn find_text(text: &str, part: &str, from: usize) -> (result: Option<usize>)
    ensures
        match result {
            Some(at) => find_from(text@, part@, from as int) == Some(at as int) && from <= at && at
                + part@.len() <= text@.len(),
            None => find_from(text@, part@, from as int) is None,
        },
{
    let all = characters(text);
    let wanted = characters(part);
    if wanted.len() > all.len() || from > all.len() - wanted.len() {
        return None;
    }
    let last: usize = all.len() - wanted.len();
    let mut at: usize = from;
    while at <= last
        invariant
            from <= at <= last + 1,
            last == all@.len() - wanted@.len(),
            last < usize::MAX || at <= last,
            all@ == text@,
            wanted@ == part@,
            find_from(text@, part@, from as int) == find_from(text@, part@, at as int),
        decreases last + 1 - at,
    {
        if part_at(&all, &wanted, at) {
            return Some(at);
        }
        if at == last {
            assert(find_from(text@, part@, at + 1) is None);
            return None;
        }
        at += 1;
    }
    None
}

/// Whether a text begins with another.
pub fn has_prefix(text: &str, prefix: &str) -> (result: bool)
    ensures
        result == begins_with(text@, prefix@),
{
    let all = characters(text);
    let wanted = characters(prefix);
    if wanted.len() > all.len() {
        return false;
    }
    part_at(&all, &wanted, 0)
}

/// The part of a text from one character position up to another.
pub fn part(text: &str, from: usize, to: usize) -> (result: String)
    requires
        from <= to <= text@.len(),
    ensures
        result@ == text@.subrange(from as int, to as int),
{
    text.substring_char(from, to).to_owned()
}

} // verus!
