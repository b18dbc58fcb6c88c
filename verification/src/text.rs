//! Verified operations on text: equality, containment, numbers and escaping.

use vstd::prelude::*;

verus! {

/// The characters of an optional text.
pub open spec fn text_view(text: Option<String>) -> Option<Seq<char>> {
    match text {
        Some(value) => Some(value@),
        None => None,
    }
}

/// The characters of an optional borrowed text.
pub open spec fn str_view(text: Option<&str>) -> Option<Seq<char>> {
    match text {
        Some(value) => Some(value@),
        None => None,
    }
}

/// Whether two texts hold the same characters.
pub fn same_str(left: &str, right: &str) -> (same: bool)
    ensures
        same == (left@ == right@),
{
    let a = left.as_bytes();
    let b = right.as_bytes();
    proof {
        vstd::utf8::encode_utf8_decode_utf8(left@);
        vstd::utf8::encode_utf8_decode_utf8(right@);
    }
    if a.len() != b.len() {
        return false;
    }
    let mut index: usize = 0;
    while index < a.len()
        invariant
            a@.len() == b@.len(),
            a@ == vstd::utf8::encode_utf8(left@),
            b@ == vstd::utf8::encode_utf8(right@),
            0 <= index <= a@.len(),
            forall|i: int| 0 <= i < index ==> a@[i] == b@[i],
        decreases a.len() - index,
    {
        if a[index] != b[index] {
            assert(a@ != b@);
            return false;
        }
        index = index + 1;
    }
    assert(a@ =~= b@);
    true
}

/// Whether an optional text is present and holds exactly `expected`.
pub fn is_text(text: Option<&str>, expected: &str) -> (same: bool)
    ensures
        same == (text matches Some(value) && value@ == expected@),
{
    match text {
        Some(value) => same_str(value, expected),
        None => false,
    }
}

/// Whether two optional texts are both missing or hold the same characters.
pub fn same_text(left: &Option<String>, right: &Option<String>) -> (same: bool)
    ensures
        same == (text_view(*left) == text_view(*right)),
{
    match (left, right) {
        (Some(a), Some(b)) => same_str(a.as_str(), b.as_str()),
        (None, None) => true,
        _ => false,
    }
}

/// A borrowed view of an optional text.
pub fn as_text(text: &Option<String>) -> (borrowed: Option<&str>)
    ensures
        str_view(borrowed) == text_view(*text),
        text is None <==> borrowed is None,
{
    match text {
        Some(value) => Some(value.as_str()),
        None => None,
    }
}

/// A copy of an optional text.
pub fn copy_text(text: &Option<String>) -> (copy: Option<String>)
    ensures
        copy == *text,
{
    match text {
        Some(value) => Some(value.clone()),
        None => None,
    }
}

/// The characters that UTF-16 units encode; a surrogate without its partner stands
/// for the replacement character.
pub open spec fn utf16_text(units: Seq<u16>) -> Seq<char>
    decreases units.len(),
{
    if units.len() == 0 {
        Seq::empty()
    } else if units[0] < 0xd800 || units[0] > 0xdfff {
        seq![units[0] as char] + utf16_text(units.skip(1))
    } else if units[0] < 0xdc00 && units.len() > 1 && 0xdc00 <= units[1] <= 0xdfff {
        seq![
            (0x1_0000 + (units[0] - 0xd800) * 0x400 + (units[1] - 0xdc00)) as char,
        ] + utf16_text(units.skip(2))
    } else {
        seq!['\u{fffd}'] + utf16_text(units.skip(1))
    }
}

/// The text that UTF-16 units encode.
///
/// Calls `String::from_utf16_lossy`, and trusts that it decodes every unit and
/// every pair of surrogates in their order, and puts one replacement character in
/// the place of each surrogate that has no partner.
#[verifier::external_body]
pub(crate) fn decode_utf16(units: &Vec<u16>) -> (text: String)
    ensures
        text@ == utf16_text(units@),
{
    String::from_utf16_lossy(units)
}

/// One hexadecimal digit.
pub open spec fn hex_digit(digit: int) -> Seq<char> {
    if digit == 0 {
        "0"@
    } else if digit == 1 {
        "1"@
    } else if digit == 2 {
        "2"@
    } else if digit == 3 {
        "3"@
    } else if digit == 4 {
        "4"@
    } else if digit == 5 {
        "5"@
    } else if digit == 6 {
        "6"@
    } else if digit == 7 {
        "7"@
    } else if digit == 8 {
        "8"@
    } else if digit == 9 {
        "9"@
    } else if digit == 10 {
        "a"@
    } else if digit == 11 {
        "b"@
    } else if digit == 12 {
        "c"@
    } else if digit == 13 {
        "d"@
    } else if digit == 14 {
        "e"@
    } else {
        "f"@
    }
}

/// A number in the given base, most significant digit first.
pub open spec fn numeral(number: nat, base: nat) -> Seq<char>
    decreases number,
{
    if number < base || base < 2 {
        hex_digit(number as int)
    } else {
        proof {
            assert(number / base < number) by (nonlinear_arith)
                requires
                    number >= base,
                    base >= 2,
            ;
        }
        numeral(number / base, base) + hex_digit((number % base) as int)
    }
}

/// A number in base sixteen with at least two digits.
pub open spec fn padded_hex(number: nat) -> Seq<char> {
    if number < 16 {
        "0"@ + hex_digit(number as int)
    } else {
        numeral(number, 16)
    }
}

/// A signed number in base ten.
pub open spec fn decimal(number: int) -> Seq<char> {
    if number < 0 {
        "-"@ + numeral((-number) as nat, 10)
    } else {
        numeral(number as nat, 10)
    }
}

fn digit(value: u64) -> (digit: &'static str)
    requires
        value < 16,
    ensures
        digit@ == hex_digit(value as int),
{
    match value {
        0 => "0",
        1 => "1",
        2 => "2",
        3 => "3",
        4 => "4",
        5 => "5",
        6 => "6",
        7 => "7",
        8 => "8",
        9 => "9",
        10 => "a",
        11 => "b",
        12 => "c",
        13 => "d",
        14 => "e",
        _ => "f",
    }
}

/// Appends a number in the given base.
pub fn append_numeral(text: &mut String, number: u64, base: u64)
    requires
        2 <= base <= 16,
    ensures
        final(text)@ == old(text)@ + numeral(number as nat, base as nat),
    decreases number,
{
    if number < base {
        text.append(digit(number));
    } else {
        let ghost before = text@;
        let head: u64 = number / base;
        assert(number / base < number) by (nonlinear_arith)
            requires
                number >= base,
                base >= 2,
        ;
        append_numeral(text, head, base);
        let tail: u64 = number % base;
        text.append(digit(tail));
        assert(text@ =~= before + numeral(number as nat, base as nat));
    }
}

/// A number in base sixteen with at least two digits.
pub fn format_padded_hex(number: u64) -> (text: String)
    ensures
        text@ == padded_hex(number as nat),
{
    let mut text = String::new();
    if number < 16 {
        text.append("0");
        text.append(digit(number));
        assert(text@ =~= padded_hex(number as nat));
    } else {
        append_numeral(&mut text, number, 16);
        assert(text@ =~= padded_hex(number as nat));
    }
    text
}

/// A signed number in base ten.
pub fn format_decimal(number: i64) -> (text: String)
    ensures
        text@ == decimal(number as int),
{
    let mut text = String::new();
    if number < 0 {
        text.append("-");
        let magnitude: u64 = if number == i64::MIN {
            0x8000_0000_0000_0000
        } else {
            (-number) as u64
        };
        append_numeral(&mut text, magnitude, 10);
        assert(text@ =~= decimal(number as int));
    } else {
        append_numeral(&mut text, number as u64, 10);
        assert(text@ =~= decimal(number as int));
    }
    text
}

/// The lower-case form of an ASCII letter; any other character is its own.
pub open spec fn ascii_lower(c: char) -> char {
    if 'A' <= c && c <= 'Z' {
        (c as u32 + 32) as char
    } else {
        c
    }
}

/// A text with its ASCII letters in lower case.
pub open spec fn ascii_lowercased(text: Seq<char>) -> Seq<char> {
    text.map_values(|c: char| ascii_lower(c))
}

/// Whether `part` stands in `whole` at `at`.
pub open spec fn occurs_at(whole: Seq<char>, part: Seq<char>, at: int) -> bool {
    0 <= at && at + part.len() <= whole.len() && whole.subrange(at, at + part.len()) == part
}

/// Whether `part` stands somewhere in `whole`.
pub open spec fn contains(whole: Seq<char>, part: Seq<char>) -> bool {
    exists|at: int| #[trigger] occurs_at(whole, part, at)
}

/// The characters of a text.
pub fn chars_of(text: &str) -> (chars: Vec<char>)
    ensures
        chars@ == text@,
{
    let mut chars: Vec<char> = Vec::new();
    for c in rest: text.chars()
        invariant
            rest.seq() == text@,
            chars@ == text@.take(rest.index()),
    {
        chars.push(c);
        assert(chars@ =~= text@.take(rest.index() + 1));
    }
    assert(chars@ =~= text@);
    chars
}

fn lower_ascii(c: char) -> (lower: char)
    ensures
        lower == ascii_lower(c),
{
    match c {
        'A' => 'a',
        'B' => 'b',
        'C' => 'c',
        'D' => 'd',
        'E' => 'e',
        'F' => 'f',
        'G' => 'g',
        'H' => 'h',
        'I' => 'i',
        'J' => 'j',
        'K' => 'k',
        'L' => 'l',
        'M' => 'm',
        'N' => 'n',
        'O' => 'o',
        'P' => 'p',
        'Q' => 'q',
        'R' => 'r',
        'S' => 's',
        'T' => 't',
        'U' => 'u',
        'V' => 'v',
        'W' => 'w',
        'X' => 'x',
        'Y' => 'y',
        'Z' => 'z',
        other => other,
    }
}

/// Whether `part` stands in `whole` at `at`.
pub fn matches_at(whole: &Vec<char>, part: &Vec<char>, at: usize) -> (found: bool)
    requires
        at <= whole@.len(),
    ensures
        found == occurs_at(whole@, part@, at as int),
{
    if part.len() > whole.len() - at {
        return false;
    }
    let mut index: usize = 0;
    while index < part.len()
        invariant
            at + part.len() <= whole.len(),
            0 <= index <= part.len(),
            forall|i: int| 0 <= i < index ==> whole@[at + i] == part@[i],
        decreases part.len() - index,
    {
        if whole[at + index] != part[index] {
            assert(whole@.subrange(at as int, at + part@.len())[index as int] != part@[index as int]);
            return false;
        }
        index = index + 1;
    }
    assert(whole@.subrange(at as int, at + part@.len()) =~= part@);
    true
}

/// Whether `part` stands somewhere in `text` once its ASCII letters are in lower case.
pub fn contains_ascii_lowercased(text: &str, part: &str) -> (found: bool)
    ensures
        found == contains(ascii_lowercased(text@), part@),
{
    let original = chars_of(text);
    let sought = chars_of(part);
    let mut lowered: Vec<char> = Vec::new();
    let mut index: usize = 0;
    while index < original.len()
        invariant
            original@ == text@,
            0 <= index <= original@.len(),
            lowered@ == ascii_lowercased(text@).take(index as int),
        decreases original.len() - index,
    {
        lowered.push(lower_ascii(original[index]));
        index = index + 1;
        assert(lowered@ =~= ascii_lowercased(text@).take(index as int));
    }
    assert(lowered@ =~= ascii_lowercased(text@));
    let mut at: usize = 0;
    while at < lowered.len()
        invariant
            lowered@ == ascii_lowercased(text@),
            sought@ == part@,
            0 <= at <= lowered@.len(),
            forall|i: int| 0 <= i < at ==> !#[trigger] occurs_at(lowered@, sought@, i),
        decreases lowered.len() - at,
    {
        if matches_at(&lowered, &sought, at) {
            return true;
        }
        at = at + 1;
    }
    matches_at(&lowered, &sought, at)
}

/// The characters that Unicode calls white space.
pub open spec fn is_white_space(c: char) -> bool {
    ||| '\u{9}' <= c && c <= '\u{d}'
    ||| c == '\u{20}'
    ||| c == '\u{85}'
    ||| c == '\u{a0}'
    ||| c == '\u{1680}'
    ||| '\u{2000}' <= c && c <= '\u{200a}'
    ||| c == '\u{2028}'
    ||| c == '\u{2029}'
    ||| c == '\u{202f}'
    ||| c == '\u{205f}'
    ||| c == '\u{3000}'
}

fn white_space(c: char) -> (found: bool)
    ensures
        found == is_white_space(c),
{
    ('\u{9}' <= c && c <= '\u{d}') || c == '\u{20}' || c == '\u{85}' || c == '\u{a0}' || c
        == '\u{1680}' || ('\u{2000}' <= c && c <= '\u{200a}') || c == '\u{2028}' || c == '\u{2029}'
        || c == '\u{202f}' || c == '\u{205f}' || c == '\u{3000}'
}

/// A text without the white space at its start.
pub open spec fn trimmed_start(text: Seq<char>) -> Seq<char>
    decreases text.len(),
{
    if text.len() > 0 && is_white_space(text.first()) {
        trimmed_start(text.drop_first())
    } else {
        text
    }
}

/// A text without the white space at its end.
pub open spec fn trimmed_end(text: Seq<char>) -> Seq<char>
    decreases text.len(),
{
    if text.len() > 0 && is_white_space(text.last()) {
        trimmed_end(text.drop_last())
    } else {
        text
    }
}

/// A text without the white space around it.
pub open spec fn trimmed(text: Seq<char>) -> Seq<char> {
    trimmed_end(trimmed_start(text))
}

/// The characters of a text, in lower case as far as ASCII goes, without the
/// white space around it.
pub fn trimmed_lowercase(text: &str) -> (chars: Vec<char>)
    ensures
        chars@ == ascii_lowercased(trimmed(text@)),
{
    let original = chars_of(text);
    let mut start: usize = 0;
    assert(original@.skip(0) =~= original@);
    while start < original.len() && white_space(original[start])
        invariant
            start <= original@.len(),
            trimmed_start(original@.skip(start as int)) == trimmed_start(original@),
        decreases original.len() - start,
    {
        proof {
            let rest = original@.skip(start as int);
            assert(rest.first() == original@[start as int]);
            assert(rest.drop_first() =~= original@.skip(start + 1));
        }
        start = start + 1;
    }
    let ghost rest = original@.skip(start as int);
    proof {
        if start < original@.len() {
            assert(rest.first() == original@[start as int]);
        }
        assert(rest == trimmed_start(original@));
    }
    let mut end: usize = original.len();
    assert(original@.subrange(start as int, end as int) =~= rest);
    while end > start && white_space(original[end - 1])
        invariant
            start <= end <= original@.len(),
            trimmed_end(original@.subrange(start as int, end as int)) == trimmed_end(rest),
        decreases end,
    {
        proof {
            let part = original@.subrange(start as int, end as int);
            assert(part.last() == original@[end - 1]);
            assert(part.drop_last() =~= original@.subrange(start as int, end - 1));
        }
        end = end - 1;
    }
    let ghost part = original@.subrange(start as int, end as int);
    proof {
        if end > start {
            assert(part.last() == original@[end - 1]);
        }
        assert(part == trimmed(text@));
    }
    let mut lowered: Vec<char> = Vec::new();
    let mut index: usize = start;
    assert(lowered@ =~= ascii_lowercased(part).take(0));
    while index < end
        invariant
            start <= index <= end <= original@.len(),
            part == original@.subrange(start as int, end as int),
            lowered@ == ascii_lowercased(part).take(index - start),
        decreases end - index,
    {
        lowered.push(lower_ascii(original[index]));
        index = index + 1;
        assert(lowered@ =~= ascii_lowercased(part).take(index - start));
    }
    assert(lowered@ =~= ascii_lowercased(part));
    lowered
}

/// Whether a list of characters spells `expected`.
pub fn spells(chars: &Vec<char>, expected: &str) -> (same: bool)
    ensures
        same == (chars@ == expected@),
{
    let sought = chars_of(expected);
    if chars.len() != sought.len() {
        return false;
    }
    let same = matches_at(chars, &sought, 0);
    assert(chars@.subrange(0, chars@.len() as int) =~= chars@);
    same
}

/// How many characters a text has.
pub fn char_count(text: &str) -> (count: usize)
    ensures
        count == text@.len(),
{
    chars_of(text).len()
}

proof fn lemma_digit(digit: int)
    requires
        0 <= digit < 16,
    ensures
        hex_digit(digit).len() == 1,
        hex_digit(digit)[0] as int == if digit < 10 {
            '0' as int + digit
        } else {
            'a' as int + digit - 10
        },
{
    reveal_strlit("0");
    reveal_strlit("1");
    reveal_strlit("2");
    reveal_strlit("3");
    reveal_strlit("4");
    reveal_strlit("5");
    reveal_strlit("6");
    reveal_strlit("7");
    reveal_strlit("8");
    reveal_strlit("9");
    reveal_strlit("a");
    reveal_strlit("b");
    reveal_strlit("c");
    reveal_strlit("d");
    reveal_strlit("e");
    reveal_strlit("f");
}

proof fn lemma_numeral(number: nat, base: nat)
    requires
        2 <= base <= 16,
    ensures
        numeral(number, base).len() >= 1,
        number >= base ==> numeral(number, base).len() >= 2,
        number > 0 ==> numeral(number, base)[0] != '0',
    decreases number,
{
    lemma_digit((number % base) as int);
    if number < base {
        lemma_digit(number as int);
    } else {
        assert(0 < number / base < number) by (nonlinear_arith)
            requires
                number >= base,
                base >= 2,
        ;
        lemma_numeral(number / base, base);
        assert(numeral(number, base)[0] == numeral(number / base, base)[0]);
    }
}

/// Two numbers are written alike only if they are the same.
pub proof fn law_numerals_are_unique(first: nat, second: nat, base: nat)
    requires
        2 <= base <= 16,
        numeral(first, base) == numeral(second, base),
    ensures
        first == second,
    decreases first,
{
    lemma_numeral(first, base);
    lemma_numeral(second, base);
    if second < base {
        lemma_digit(second as int);
    }
    if first < base {
        lemma_digit(first as int);
    } else {
        let head = first / base;
        let other = second / base;
        let tail = (first % base) as int;
        let other_tail = (second % base) as int;
        assert(head < first && first == head * base + tail && second == other * base + other_tail
            && 0 <= tail < base && 0 <= other_tail < base) by (nonlinear_arith)
            requires
                first >= base,
                base >= 2,
                head == first / base,
                other == second / base,
                tail == first % base,
                other_tail == second % base,
        ;
        lemma_digit(tail);
        lemma_digit(other_tail);
        let written = numeral(first, base);
        assert(written.drop_last() =~= numeral(head, base));
        assert(written.last() == hex_digit(tail)[0]);
        assert(written.drop_last() =~= numeral(other, base));
        assert(written.last() == hex_digit(other_tail)[0]);
        law_numerals_are_unique(head, other, base);
    }
}

/// Two numbers are written alike with two or more digits only if they are the
/// same.
pub proof fn law_padded_numerals_are_unique(first: nat, second: nat)
    requires
        padded_hex(first) == padded_hex(second),
    ensures
        first == second,
{
    reveal_strlit("0");
    lemma_numeral(first, 16);
    lemma_numeral(second, 16);
    if first < 16 {
        lemma_digit(first as int);
        assert(padded_hex(first)[0] == '0');
        assert(padded_hex(first)[1] == hex_digit(first as int)[0]);
    }
    if second < 16 {
        lemma_digit(second as int);
        assert(padded_hex(second)[0] == '0');
        assert(padded_hex(second)[1] == hex_digit(second as int)[0]);
    }
    if first >= 16 && second >= 16 {
        law_numerals_are_unique(first, second, 16);
    }
}

/// What a digit counts.
pub open spec fn digit_value(digit: char) -> int {
    if digit <= '9' {
        digit as int - '0' as int
    } else {
        digit as int - 'a' as int + 10
    }
}

/// The number that digits stand for, the most significant one first.
pub open spec fn digits_value(digits: Seq<char>, base: nat) -> int
    decreases digits.len(),
{
    if digits.len() == 0 {
        0
    } else {
        digits_value(digits.drop_last(), base) * base + digit_value(digits.last())
    }
}

/// A numeral reads back as its number.
pub proof fn law_numerals_read_back(number: nat, base: nat)
    requires
        2 <= base <= 16,
    ensures
        digits_value(numeral(number, base), base) == number,
        numeral(number, base).len() >= 1,
    decreases number,
{
    if number < base {
        lemma_digit(number as int);
        reveal_with_fuel(digits_value, 2);
        assert(numeral(number, base).drop_last().len() == 0);
    } else {
        assert(number / base < number) by (nonlinear_arith)
            requires
                number >= base,
                base >= 2,
        ;
        law_numerals_read_back(number / base, base);
        let high = numeral(number / base, base);
        let low = hex_digit((number % base) as int);
        lemma_digit((number % base) as int);
        assert((high + low).drop_last() =~= high);
        assert((high + low).last() == low[0]);
        assert(number == (number / base) * base + number % base) by (nonlinear_arith)
            requires
                base >= 2,
        ;
    }
}

/// A decimal text is a sign, for a negative number only, and the digits of its size.
pub proof fn law_decimals_read_back(number: i64, decimal_text: String)
    requires
        call_ensures(format_decimal, (number,), decimal_text),
    ensures
        number >= 0 ==> digits_value(decimal_text@, 10) == number,
        number < 0 ==> decimal_text@[0] == '-' && digits_value(decimal_text@.skip(1), 10) == -number,
{
    reveal_strlit("-");
    if number < 0 {
        law_numerals_read_back((-number) as nat, 10);
        assert(decimal_text@.skip(1) =~= numeral((-number) as nat, 10));
    } else {
        law_numerals_read_back(number as nat, 10);
    }
}

/// Trimming takes white space off both ends and nothing else.
pub proof fn law_trimming_takes_outer_space(text: Seq<char>)
    ensures
        trimmed(text).len() > 0 ==> !is_white_space(trimmed(text)[0]) && !is_white_space(
            trimmed(text).last(),
        ),
        exists|before: Seq<char>, after: Seq<char>|
            text == #[trigger] joined_text(before, trimmed(text), after) && (forall|i: int|
                0 <= i < before.len() ==> is_white_space(#[trigger] before[i])) && (forall|i: int|
                0 <= i < after.len() ==> is_white_space(#[trigger] after[i])),
{
    let rest = trimmed_start(text);
    let before = lemma_trim_start(text);
    let after = lemma_trim_end(rest);
    assert(text =~= joined_text(before, trimmed(text), after));
}

/// Three texts in a row.
pub open spec fn joined_text(before: Seq<char>, middle: Seq<char>, after: Seq<char>) -> Seq<char> {
    before + middle + after
}

proof fn lemma_trim_start(text: Seq<char>) -> (before: Seq<char>)
    ensures
        text == before + trimmed_start(text),
        forall|i: int| 0 <= i < before.len() ==> is_white_space(#[trigger] before[i]),
        trimmed_start(text).len() > 0 ==> !is_white_space(trimmed_start(text)[0]),
    decreases text.len(),
{
    if text.len() > 0 && is_white_space(text.first()) {
        let rest = lemma_trim_start(text.drop_first());
        let before = seq![text.first()] + rest;
        assert(text =~= seq![text.first()] + text.drop_first());
        assert(text.drop_first() =~= text.skip(1));
        assert(text =~= before + trimmed_start(text));
        before
    } else {
        assert(text =~= Seq::<char>::empty() + text);
        Seq::empty()
    }
}

proof fn lemma_trim_end(text: Seq<char>) -> (after: Seq<char>)
    ensures
        text == trimmed_end(text) + after,
        forall|i: int| 0 <= i < after.len() ==> is_white_space(#[trigger] after[i]),
        trimmed_end(text).len() > 0 ==> !is_white_space(trimmed_end(text).last())
            && trimmed_end(text)[0] == text[0],
    decreases text.len(),
{
    if text.len() > 0 && is_white_space(text.last()) {
        let rest = lemma_trim_end(text.drop_last());
        let after = rest.push(text.last());
        assert(text =~= text.drop_last().push(text.last()));
        assert(text.drop_last() =~= text.take(text.len() - 1));
        assert(text =~= trimmed_end(text) + after);
        after
    } else {
        assert(text =~= text + Seq::<char>::empty());
        Seq::empty()
    }
}

/// Lower-casing changes the letters A to Z, each into its small letter, and nothing else.
pub proof fn law_lower_case_changes_capitals_only(text: Seq<char>, index: int)
    requires
        0 <= index < text.len(),
    ensures
        ascii_lowercased(text).len() == text.len(),
        'A' <= text[index] <= 'Z' ==> ascii_lowercased(text)[index] as int - 'a' as int
            == text[index] as int - 'A' as int,
        !('A' <= text[index] <= 'Z') ==> ascii_lowercased(text)[index] == text[index],
{
}

/// Units outside the surrogates are their characters, one for one; a pair of surrogates is one
/// character beyond them, and a lone one is replaced.
pub proof fn law_units_are_characters(units: Seq<u16>)
    requires
        units.len() > 0,
    ensures
        !(0xd800 <= units[0] <= 0xdfff) ==> utf16_text(units).len() == 1 + utf16_text(
            units.skip(1),
        ).len() && utf16_text(units)[0] as int == units[0],
        0xdc00 <= units[0] <= 0xdfff ==> utf16_text(units)[0] == '\u{fffd}',
        0xd800 <= units[0] <= 0xdbff && (units.len() == 1 || !(0xdc00 <= units[1] <= 0xdfff))
            ==> utf16_text(units)[0] == '\u{fffd}' && utf16_text(units).len() == 1 + utf16_text(
            units.skip(1),
        ).len(),
        0xd800 <= units[0] <= 0xdbff && units.len() > 1 && 0xdc00 <= units[1] <= 0xdfff
            ==> utf16_text(units)[0] as int == (units[0] - 0xd800) * 0x400 + units[1] - 0xdc00
            + 0x1_0000 && utf16_text(units).len() == 1 + utf16_text(units.skip(2)).len(),
{
}

/// A padded hexadecimal text has two digits at least and reads back as its number.
pub proof fn law_padded_hex_reads_back(number: u64, hex: String)
    requires
        call_ensures(format_padded_hex, (number,), hex),
    ensures
        hex@.len() >= 2,
        digits_value(hex@, 16) == number,
        number < 16 ==> hex@.len() == 2,
{
    law_numerals_read_back(number as nat, 16);
    lemma_numeral(number as nat, 16);
    if number < 16 {
        reveal_strlit("0");
        lemma_digit(number as int);
        reveal_with_fuel(digits_value, 3);
        let digit = hex_digit(number as int);
        assert(hex@ =~= seq!['0', digit[0]]);
        assert(hex@.drop_last() =~= seq!['0']);
        assert(hex@.drop_last().drop_last().len() == 0);
    }
}

/// Texts are the same by their characters. A part is found in a text wherever it stands, with capitals read as
/// small letters, and a text without it does not have it.
pub proof fn law_parts_are_found_where_they_stand(
    before: Seq<char>,
    after: Seq<char>,
    text: &str,
    part: &str,
    found: bool,
    same: bool,
    expected: bool,
    count: usize,
)
    requires
        call_ensures(contains_ascii_lowercased, (text, part), found),
        call_ensures(same_str, (text, part), same),
        call_ensures(is_text, (Some(text), part), expected),
        call_ensures(char_count, (text,), count),
    ensures
        ascii_lowercased(text@) == before + part@ + after ==> found,
        found ==> part@.len() <= text@.len(),
        same <==> text@ == part@,
        expected <==> text@ == part@,
        count == text@.len(),
{
    let whole = ascii_lowercased(text@);
    if whole == before + part@ + after {
        assert(occurs_at(whole, part@, before.len() as int)) by {
            assert(whole.subrange(before.len() as int, (before.len() + part@.len()) as int) =~= part@);
        }
    }
    if found {
        let at = choose|at: int| #[trigger] occurs_at(whole, part@, at);
        assert(occurs_at(whole, part@, at));
    }
}

/// Trimming a text of one character leaves it unless the character is white space: among the first 128 the
/// control characters 9 to 13 and the space, beyond them the separators by their numbers. No letter and no digit
/// is ever trimmed.
pub proof fn law_only_separators_are_trimmed(c: char)
    ensures
        trimmed(seq![c]) == seq![c] || trimmed(seq![c]).len() == 0,
        (c as int) < 128 ==> (trimmed(seq![c]).len() == 0 <==> 9 <= c as int <= 13 || c as int == 32),
        'a' <= c <= 'z' || 'A' <= c <= 'Z' || '0' <= c <= '9' ==> trimmed(seq![c]) == seq![c],
        (c as int) >= 128 ==> (trimmed(seq![c]).len() == 0 <==> c as int == 133 || c as int == 160
            || c as int == 5760 || 8192 <= c as int <= 8202 || c as int == 8232 || c as int == 8233
            || c as int == 8239 || c as int == 8287 || c as int == 12288),
{
    reveal_with_fuel(trimmed_start, 2);
    reveal_with_fuel(trimmed_end, 2);
    assert(seq![c].drop_first() =~= Seq::<char>::empty());
    assert(seq![c].drop_last() =~= Seq::<char>::empty());
}

} // verus!
