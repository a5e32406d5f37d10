//! The two lines of status text: the mode on the first, the feed rate or the
//! cause of the alarm on the second.

use crate::app::{Mode, MAX_FEED_RATE, MIN_FEED_RATE};
use vstd::prelude::*;
use vstd::utf8::*;

verus! {

/// Bytes that one line of text can hold.
pub const LINE_CAPACITY: usize = 32;

/// `heapless::String`: text in a buffer of `N` bytes that lives in the value
/// itself. Nothing inside it is visible here; `line_text` names what it
/// holds.
#[verifier::external_type_specification]
#[verifier::external_body]
pub struct ExFixedString<const N: usize>(heapless::String<N>);

/// The characters that a line holds, first to last. The line stores them in
/// UTF-8, so it has taken `encode_utf8(line_text(line)).len()` of its bytes.
pub uninterp spec fn line_text(line: heapless::String<32>) -> Seq<char>;

/// `heapless::String::new`: the line it makes holds no text.
#[verifier::external_body]
fn line_new() -> (line: heapless::String<32>)
    ensures
        line_text(line) == Seq::<char>::empty(),
{
    heapless::String::new()
}

/// `heapless::String::push_str`: where the bytes of `s` fit into the buffer
/// behind those the line holds, the call succeeds and `s` stands at the end
/// of the line; where they do not, it fails and the line is as it was.
#[verifier::external_body]
fn line_push_str(line: &mut heapless::String<32>, s: &str) -> (r: Result<(), ()>)
    ensures
        r is Ok <==> encode_utf8(line_text(*old(line))).len() + encode_utf8(s@).len()
            <= LINE_CAPACITY,
        r is Ok ==> line_text(*final(line)) == line_text(*old(line)) + s@,
        r is Err ==> line_text(*final(line)) == line_text(*old(line)),
{
    line.push_str(s)
}

/// `heapless::String::push`: where the bytes of `c` fit into the buffer
/// behind those the line holds, the call succeeds and `c` stands at the end
/// of the line; where they do not, it fails and the line is as it was.
#[verifier::external_body]
fn line_push(line: &mut heapless::String<32>, c: char) -> (r: Result<(), ()>)
    ensures
        r is Ok <==> encode_utf8(line_text(*old(line))).len() + encode_utf8(seq![c]).len()
            <= LINE_CAPACITY,
        r is Ok ==> line_text(*final(line)) == line_text(*old(line)).push(c),
        r is Err ==> line_text(*final(line)) == line_text(*old(line)),
{
    line.push(c)
}

/// The character of the decimal digit `d`.
pub open spec fn digit_char(d: int) -> char {
    ('0' as u8 + d) as char
}

/// `n` in decimal, without leading zeros.
pub open spec fn decimal_text(n: nat) -> Seq<char>
    decreases n,
{
    if n < 10 {
        seq![digit_char(n as int)]
    } else {
        decimal_text(n / 10).push(digit_char((n % 10) as int))
    }
}

/// The first line: the name of the mode.
pub open spec fn status_text(mode: Mode) -> Seq<char> {
    match mode {
        Mode::Stop => "STOP"@,
        Mode::RunForward => "FWD"@,
        Mode::RunReverse => "REV"@,
        Mode::Alarm(_) => "ALARM"@,
    }
}

/// What stands before the rate: a `-` where the dial can still lower it.
pub open spec fn lower_hint(rate: u16) -> Seq<char> {
    if rate == MIN_FEED_RATE {
        "  "@
    } else {
        "- "@
    }
}

/// What stands behind the rate: the unit, and a `+` where the dial can still
/// raise it.
pub open spec fn upper_hint(rate: u16) -> Seq<char> {
    if rate == MAX_FEED_RATE {
        "mm/min  "@
    } else {
        "mm/min +"@
    }
}

/// The second line: the cause of the alarm, or the rate in force between
/// the hints of where the dial can go.
pub open spec fn rate_text(mode: Mode, rate: u16) -> Seq<char> {
    if mode is Alarm {
        "LIMIT SWITCH"@
    } else {
        lower_hint(rate) + decimal_text(rate as nat) + upper_hint(rate)
    }
}

/// A decimal number is made of ASCII digits, one more than its tenth has,
/// and a 16-bit number has at most five of them.
pub proof fn lemma_decimal_text(n: nat)
    ensures
        is_ascii_chars(decimal_text(n)),
        n < 10 ==> decimal_text(n).len() == 1,
        n >= 10 ==> decimal_text(n).len() == decimal_text(n / 10).len() + 1,
        n < 100 ==> decimal_text(n).len() <= 2,
        n < 1_000 ==> decimal_text(n).len() <= 3,
        n < 10_000 ==> decimal_text(n).len() <= 4,
        n < 100_000 ==> decimal_text(n).len() <= 5,
    decreases n,
{
    if n >= 10 {
        lemma_decimal_text(n / 10);
    }
}

/// Every line fits its buffer: the first has at most 5 characters, the
/// second at most 15, all of them ASCII, so that a line takes as many bytes
/// as it has characters.
pub proof fn lemma_lines_fit(mode: Mode, rate: u16)
    ensures
        status_text(mode).len() <= 5,
        rate_text(mode, rate).len() <= 15,
        rate_text(mode, rate).len() <= LINE_CAPACITY,
        is_ascii_chars(status_text(mode)),
        is_ascii_chars(rate_text(mode, rate)),
{
    reveal_strlit("STOP");
    reveal_strlit("FWD");
    reveal_strlit("REV");
    reveal_strlit("ALARM");
    reveal_strlit("LIMIT SWITCH");
    reveal_strlit("  ");
    reveal_strlit("- ");
    reveal_strlit("mm/min  ");
    reveal_strlit("mm/min +");
    lemma_decimal_text(rate as nat);
}

/// While the feed is alarmed the second line names the limit switch,
/// whatever the rate is.
pub proof fn lemma_alarm_text_ignores_rate(mode: Mode, rate: u16, other_rate: u16)
    requires
        mode is Alarm,
    ensures
        rate_text(mode, rate) == "LIMIT SWITCH"@,
        rate_text(mode, rate) == rate_text(mode, other_rate),
{
}

/// Outside an alarm the second line starts with `-` exactly where the rate
/// is above the lowest, and ends in `+` exactly where it is below the
/// highest.
pub proof fn lemma_hints_at_bounds(mode: Mode, rate: u16)
    requires
        !(mode is Alarm),
    ensures
        rate_text(mode, rate).len() >= 11,
        rate_text(mode, rate).first() == '-' <==> rate != MIN_FEED_RATE,
        rate_text(mode, rate).first() == ' ' <==> rate == MIN_FEED_RATE,
        rate_text(mode, rate).last() == '+' <==> rate != MAX_FEED_RATE,
        rate_text(mode, rate).last() == ' ' <==> rate == MAX_FEED_RATE,
{
    reveal_strlit("  ");
    reveal_strlit("- ");
    reveal_strlit("mm/min  ");
    reveal_strlit("mm/min +");
    lemma_decimal_text(rate as nat);
}

/// Appends `s` to a line that has room for it.
fn append_str(line: &mut heapless::String<32>, s: &str)
    requires
        is_ascii_chars(line_text(*old(line))),
        is_ascii_chars(s@),
        line_text(*old(line)).len() + s@.len() <= LINE_CAPACITY,
    ensures
        line_text(*final(line)) == line_text(*old(line)) + s@,
        is_ascii_chars(line_text(*final(line))),
{
    proof {
        is_ascii_chars_encode_utf8(line_text(*line));
        is_ascii_chars_encode_utf8(s@);
    }
    let r = line_push_str(line, s);
    assert(r is Ok);
}

/// Appends `n` in decimal to a line that has room for it.
fn append_decimal(line: &mut heapless::String<32>, n: u16)
    requires
        is_ascii_chars(line_text(*old(line))),
        line_text(*old(line)).len() + decimal_text(n as nat).len() <= LINE_CAPACITY,
    ensures
        line_text(*final(line)) == line_text(*old(line)) + decimal_text(n as nat),
        is_ascii_chars(line_text(*final(line))),
    decreases n,
{
    proof {
        lemma_decimal_text(n as nat);
    }
    if n >= 10 {
        append_decimal(line, n / 10);
    }
    let digit: u8 = (n % 10) as u8;
    // 48 is the code of the character `0`, and the digits follow it in order
    let c: char = (48u8 + digit) as char;
    proof {
        assert(c == digit_char((n % 10) as int));
        is_ascii_chars_encode_utf8(line_text(*line));
        is_ascii_chars_encode_utf8(seq![c]);
    }
    let r = line_push(line, c);
    assert(r is Ok);
}

/// The first status line for `mode`.
pub fn status_line(mode: Mode) -> (text: &'static str)
    ensures
        text@ == status_text(mode),
{
    match mode {
        Mode::Stop => "STOP",
        Mode::RunForward => "FWD",
        Mode::RunReverse => "REV",
        Mode::Alarm(_) => "ALARM",
    }
}

/// The second status line for `mode` with `rate` in force.
pub fn rate_line(mode: Mode, rate: u16) -> (line: heapless::String<32>)
    ensures
        line_text(line) == rate_text(mode, rate),
{
    let mut line = line_new();
    proof {
        reveal_strlit("LIMIT SWITCH");
        reveal_strlit("  ");
        reveal_strlit("- ");
        reveal_strlit("mm/min  ");
        reveal_strlit("mm/min +");
        lemma_decimal_text(rate as nat);
    }
    match mode {
        Mode::Alarm(_) => {
            append_str(&mut line, "LIMIT SWITCH");
        },
        _ => {
            append_str(
                &mut line,
                if rate == MIN_FEED_RATE {
                    "  "
                } else {
                    "- "
                },
            );
            append_decimal(&mut line, rate);
            append_str(
                &mut line,
                if rate == MAX_FEED_RATE {
                    "mm/min  "
                } else {
                    "mm/min +"
                },
            );
        },
    }
    line
}

} // verus!
