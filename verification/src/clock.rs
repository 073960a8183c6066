//! The wall-clock label that each logged probe carries.
use vstd::prelude::*;

verus! {

/// `c` is one of the digits 0 to 9.
pub open spec fn is_digit(c: char) -> bool {
    '0' <= c && c <= '9'
}

/// `s` reads `HH:MM:SS`: three two-digit fields separated by colons.
pub open spec fn is_clock_label(s: Seq<char>) -> bool {
    &&& s.len() == 8
    &&& s[2] == ':'
    &&& s[5] == ':'
    &&& is_digit(s[0]) && is_digit(s[1])
    &&& is_digit(s[3]) && is_digit(s[4])
    &&& is_digit(s[6]) && is_digit(s[7])
}

/// The local time of day, from `chrono::Local::now()` formatted with
/// `"%H:%M:%S"`. chrono documents each of `%H`, `%M` and `%S` as a number
/// zero-padded to two digits, so the label is two digits, a colon, two digits,
/// a colon and two digits. Which time it shows depends on the clock and the
/// local time zone, and nothing here says which.
#[verifier::external_body]
pub(crate) fn local_clock_label() -> (label: String)
    ensures
        is_clock_label(label@),
{
    chrono::Local::now().format("%H:%M:%S").to_string()
}

/// `label` is a label that a reading of the local clock handed back: one of
/// the answers `local_clock_label` can give, not merely a string of its shape.
pub closed spec fn is_clock_reading(label: Seq<char>) -> bool {
    exists|reading: String| call_ensures(local_clock_label, (), reading) && reading@ == label
}

/// What a call of the clock hands back is a clock reading.
pub(crate) proof fn lemma_call_is_reading(reading: String)
    requires
        call_ensures(local_clock_label, (), reading),
    ensures
        is_clock_reading(reading@),
{
}

/// Law: every clock reading reads `HH:MM:SS`.
pub proof fn lemma_readings_are_labels(label: Seq<char>)
    requires
        is_clock_reading(label),
    ensures
        is_clock_label(label),
{
    let reading = choose|reading: String| call_ensures(local_clock_label, (), reading) && reading@ == label;
    assert(is_clock_label(reading@));
}

} // verus!
