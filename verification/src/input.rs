use vstd::prelude::*;

verus! {

/// What is left of a line of text once the whitespace at both of its ends is taken off.
pub uninterp spec fn trimmed(line: Seq<char>) -> Seq<char>;

/// Whether `c` is one of the ten decimal digits.
pub open spec fn is_digit(c: char) -> bool {
    '0' <= c <= '9'
}

/// The number that a sequence of decimal digits writes, the first digit counting most.
pub open spec fn digits_value(digits: Seq<char>) -> nat
    decreases digits.len(),
{
    if digits.len() == 0 {
        0
    } else {
        (10 * digits_value(digits.drop_last()) + (digits.last() as int - '0' as int)) as nat
    }
}

/// The text without the plus sign that may stand before the digits.
pub open spec fn unsigned(text: Seq<char>) -> Seq<char> {
    if text.len() > 0 && text[0] == '+' {
        text.skip(1)
    } else {
        text
    }
}

/// The number that `text` writes in decimal, where it writes one: at least one digit and
/// nothing but digits, after at most one plus sign, with a value that fits the machine
/// word.
pub open spec fn decimal(text: Seq<char>) -> Option<usize> {
    let digits = unsigned(text);
    if digits.len() > 0 && (forall|i: int| 0 <= i < digits.len() ==> is_digit(#[trigger] digits[i]))
        && digits_value(digits) <= usize::MAX {
        Some(digits_value(digits) as usize)
    } else {
        None
    }
}

/// The number that a line of input holds, if it holds one: whitespace around it does not
/// count.
pub open spec fn entry_in(line: Seq<char>) -> Option<usize> {
    decimal(trimmed(line))
}

/// `str::trim`: the slice of `line` that is left without the whitespace at its ends. The
/// contract gives that slice its name and says nothing else of it.
#[verifier::external_body]
fn trim(line: &str) -> (inner: &str)
    ensures
        inner@ == trimmed(line@),
{
    line.trim()
}

/// `str::parse` to a `usize`: a decimal number, written as an optional plus sign and then
/// one or more digits, is read; empty text, any other character and a value beyond the
/// machine word are errors, which come back as `None`.
#[verifier::external_body]
fn parse(text: &str) -> (number: Option<usize>)
    ensures
        number == decimal(text@),
{
    match text.parse::<usize>() {
        Ok(number) => Some(number),
        Err(_) => None,
    }
}

/// Reads the number that a line of input holds.
pub fn read_entry(line: &str) -> (entry: Option<usize>)
    ensures
        entry == entry_in(line@),
{
    parse(trim(line))
}

} // verus!
