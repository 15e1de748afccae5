use vstd::prelude::*;

verus! {

/// The digit that stands for a value below 16, in upper case.
pub open spec fn spec_hex_digit(value: int) -> char {
    seq!['0', '1', '2', '3', '4', '5', '6', '7', '8', '9', 'A', 'B', 'C', 'D', 'E', 'F'][value]
}

/// The hexadecimal digits of a number, most significant first, without
/// leading zeros; the number 0 has the one digit `0`.
pub open spec fn spec_hex_digits(value: nat) -> Seq<char>
    decreases value,
{
    if value < 16 {
        seq![spec_hex_digit(value as int)]
    } else {
        spec_hex_digits(value / 16).push(spec_hex_digit((value % 16) as int))
    }
}

/// The hexadecimal digits of a number in upper case, with zeros in front
/// where there are fewer than `width` of them.
pub open spec fn spec_upper_hex(value: nat, width: nat) -> Seq<char> {
    let digits = spec_hex_digits(value);
    if digits.len() >= width {
        digits
    } else {
        Seq::new((width - digits.len()) as nat, |i: int| '0') + digits
    }
}

/// The decimal digits of a number, most significant first, without leading
/// zeros; the number 0 has the one digit `0`.
pub open spec fn spec_decimal_digits(value: nat) -> Seq<char>
    decreases value,
{
    if value < 10 {
        seq![spec_hex_digit(value as int)]
    } else {
        spec_decimal_digits(value / 10).push(spec_hex_digit((value % 10) as int))
    }
}

/// The value of a hexadecimal digit, in either case; none for any other
/// character.
pub open spec fn spec_hex_digit_value(c: char) -> Option<nat> {
    if '0' <= c <= '9' {
        Some((c as int - '0' as int) as nat)
    } else if 'a' <= c <= 'f' {
        Some((c as int - 'a' as int + 10) as nat)
    } else if 'A' <= c <= 'F' {
        Some((c as int - 'A' as int + 10) as nat)
    } else {
        None
    }
}

/// The number that a run of hexadecimal digits spells, most significant
/// digit first; none where a character is no digit.
pub open spec fn spec_hex_number(digits: Seq<char>) -> Option<nat>
    decreases digits.len(),
{
    if digits.len() == 0 {
        Some(0)
    } else {
        match (spec_hex_number(digits.drop_last()), spec_hex_digit_value(digits.last())) {
            (Some(high), Some(low)) => Some(high * 16 + low),
            _ => None,
        }
    }
}

/// What a text spells as a hexadecimal number that is no greater than
/// `max`: the text is a plus sign or none, then one digit or more, and
/// nothing else.
pub open spec fn spec_parse_hex(text: Seq<char>, max: nat) -> Option<nat> {
    let digits = if text.len() > 0 && text[0] == '+' {
        text.subrange(1, text.len() as int)
    } else {
        text
    };
    if digits.len() == 0 {
        None
    } else {
        match spec_hex_number(digits) {
            Some(value) => if value <= max {
                Some(value)
            } else {
                None
            },
            None => None,
        }
    }
}

/// What a text spells as a hexadecimal number of 16 bits, if anything.
pub open spec fn spec_parse_hex_u16(text: Seq<char>) -> Option<u16> {
    match spec_parse_hex(text, u16::MAX as nat) {
        Some(value) => Some(value as u16),
        None => None,
    }
}

/// What a text spells as a hexadecimal number of 32 bits, if anything.
pub open spec fn spec_parse_hex_u32(text: Seq<char>) -> Option<u32> {
    match spec_parse_hex(text, u32::MAX as nat) {
        Some(value) => Some(value as u32),
        None => None,
    }
}

/// What a text spells as a hexadecimal number of 64 bits, if anything.
pub open spec fn spec_parse_hex_u64(text: Seq<char>) -> Option<u64> {
    match spec_parse_hex(text, u64::MAX as nat) {
        Some(value) => Some(value as u64),
        None => None,
    }
}

/// Calls `u16::from_str_radix(text, 16)`, which takes a plus sign or none
/// and then hexadecimal digits in either case, and refuses an empty text, a
/// text without digits, any other character, and a number that 16 bits
/// cannot hold. A text that is refused gives `None`.
#[verifier::external_body]
pub(crate) fn parse_hex_u16(text: &str) -> (r: Option<u16>)
    ensures
        r == spec_parse_hex_u16(text@),
{
    u16::from_str_radix(text, 16).ok()
}

/// Calls `u32::from_str_radix(text, 16)`, which takes a plus sign or none
/// and then hexadecimal digits in either case, and refuses an empty text, a
/// text without digits, any other character, and a number that 32 bits
/// cannot hold. A text that is refused gives `None`.
#[verifier::external_body]
pub(crate) fn parse_hex_u32(text: &str) -> (r: Option<u32>)
    ensures
        r == spec_parse_hex_u32(text@),
{
    u32::from_str_radix(text, 16).ok()
}

/// Calls `u64::from_str_radix(text, 16)`, which takes a plus sign or none
/// and then hexadecimal digits in either case, and refuses an empty text, a
/// text without digits, any other character, and a number that 64 bits
/// cannot hold. A text that is refused gives `None`.
#[verifier::external_body]
pub(crate) fn parse_hex_u64(text: &str) -> (r: Option<u64>)
    ensures
        r == spec_parse_hex_u64(text@),
{
    u64::from_str_radix(text, 16).ok()
}

/// Formats with `{:03X}`: the upper-case hexadecimal digits of the number,
/// filled with zeros in front to three digits.
#[verifier::external_body]
pub(crate) fn upper_hex_3(value: u16) -> (r: String)
    ensures
        r@ == spec_upper_hex(value as nat, 3),
{
    format!("{:03X}", value)
}

/// Formats with `{:08X}`: the upper-case hexadecimal digits of the number,
/// filled with zeros in front to eight digits.
#[verifier::external_body]
pub(crate) fn upper_hex_8(value: u32) -> (r: String)
    ensures
        r@ == spec_upper_hex(value as nat, 8),
{
    format!("{:08X}", value)
}

/// Formats with `{:016X}`: the upper-case hexadecimal digits of the number,
/// filled with zeros in front to sixteen digits.
#[verifier::external_body]
pub(crate) fn upper_hex_16(value: u64) -> (r: String)
    ensures
        r@ == spec_upper_hex(value as nat, 16),
{
    format!("{:016X}", value)
}

/// A digit stands for the value it was made from.
pub proof fn lemma_hex_digit_value(value: int)
    requires
        0 <= value < 16,
    ensures
        spec_hex_digit_value(spec_hex_digit(value)) == Some(value as nat),
        spec_hex_digit(value) != '+',
{
}

/// The digits of a number spell that number, and there is at least one.
pub proof fn lemma_hex_digits_number(value: nat)
    ensures
        spec_hex_digits(value).len() >= 1,
        spec_hex_number(spec_hex_digits(value)) == Some(value),
        spec_hex_digits(value)[0] != '+',
    decreases value,
{
    if value < 16 {
        lemma_hex_digit_value(value as int);
        let digits = spec_hex_digits(value);
        assert(digits.drop_last() =~= Seq::<char>::empty());
        assert(spec_hex_number(digits.drop_last()) == Some(0nat));
    } else {
        lemma_hex_digits_number(value / 16);
        lemma_hex_digit_value((value % 16) as int);
        let high = spec_hex_digits(value / 16);
        let digits = spec_hex_digits(value);
        assert(digits.drop_last() =~= high);
        assert(digits[0] == high[0]);
    }
}

/// Zeros in front of digits change nothing of the number they spell.
pub proof fn lemma_hex_leading_zeros(zeros: nat, digits: Seq<char>)
    ensures
        spec_hex_number(Seq::new(zeros, |i: int| '0') + digits) == spec_hex_number(digits),
    decreases digits.len(), zeros,
{
    let padding = Seq::new(zeros, |i: int| '0');
    if digits.len() == 0 {
        assert(padding + digits =~= padding);
        if zeros > 0 {
            let fewer = Seq::new((zeros - 1) as nat, |i: int| '0');
            assert(padding.drop_last() =~= fewer + Seq::<char>::empty());
            lemma_hex_leading_zeros((zeros - 1) as nat, Seq::empty());
            assert(fewer + Seq::<char>::empty() =~= fewer);
            assert(spec_hex_number(Seq::<char>::empty()) == Some(0nat));
        }
    } else {
        assert((padding + digits).drop_last() =~= padding + digits.drop_last());
        assert((padding + digits).last() == digits.last());
        lemma_hex_leading_zeros(zeros, digits.drop_last());
    }
}

/// A number written in hexadecimal digits, with any width, is read back as
/// the same number, where it is within the limit of the reader.
pub proof fn lemma_hex_round_trip(value: nat, width: nat, max: nat)
    requires
        value <= max,
    ensures
        spec_parse_hex(spec_upper_hex(value, width), max) == Some(value),
{
    lemma_hex_digits_number(value);
    let digits = spec_hex_digits(value);
    if digits.len() < width {
        let zeros = (width - digits.len()) as nat;
        lemma_hex_leading_zeros(zeros, digits);
        let text = Seq::new(zeros, |i: int| '0') + digits;
        assert(text[0] == '0');
    }
}

} // verus!
