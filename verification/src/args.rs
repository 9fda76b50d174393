//! What the program is asked to do on its command line.

use vstd::prelude::*;
use getopts::Matches;
use crate::geometry::{fits, Size};

verus! {

/// Width of the projector where none is given.
pub const DEFAULT_SCREEN_WIDTH: i32 = 1920;

/// Height of the projector where none is given.
pub const DEFAULT_SCREEN_HEIGHT: i32 = 1080;

/// The settings of a run.
#[derive(Clone, Copy, Debug, PartialEq, Eq, Structural)]
pub struct Args {
    /// The resolution of the projector.
    pub projector_res: Size,
    /// Whether the game fills the projected screen.
    pub flag_fullscreen: bool,
    /// Whether one player plays against a wall.
    pub flag_solo: bool,
    /// How much is reported while running: 0, 1 or 2.
    pub dbg_level: usize,
}

/// The resolution that is taken where none is given, or none that can be
/// read.
pub open spec fn default_resolution() -> Size {
    Size { width: DEFAULT_SCREEN_WIDTH, height: DEFAULT_SCREEN_HEIGHT }
}

/// Whether a byte is one of the digits `0` to `9`.
pub open spec fn is_digit(byte: u8) -> bool {
    0x30 <= byte <= 0x39
}

/// Whether all bytes are digits.
pub open spec fn all_digits(bytes: Seq<u8>) -> bool {
    forall|i: int| 0 <= i < bytes.len() ==> is_digit(#[trigger] bytes[i])
}

/// The number that a run of digits spells in base ten.
pub open spec fn digits_value(digits: Seq<u8>) -> int
    decreases digits.len(),
{
    if digits.len() == 0 {
        0
    } else {
        10 * digits_value(digits.drop_last()) + (digits.last() - 0x30)
    }
}

/// Whether a field starts with a sign, `+` or `-`.
pub open spec fn has_sign(field: Seq<u8>) -> bool {
    field.len() > 0 && (field[0] == 0x2b || field[0] == 0x2d)
}

/// The digits of a field: all of it but a sign in front.
pub open spec fn digits_of(field: Seq<u8>) -> Seq<u8> {
    if has_sign(field) {
        field.skip(1)
    } else {
        field
    }
}

/// The whole number that a field spells: a sign or none, then one digit or
/// more, and nothing else. A field of another form spells no number, nor
/// does one whose number is outside `i32`.
pub open spec fn number(field: Seq<u8>) -> Option<int> {
    let digits = digits_of(field);
    let value = if has_sign(field) && field[0] == 0x2d {
        -digits_value(digits)
    } else {
        digits_value(digits)
    };
    if digits.len() > 0 && all_digits(digits) && fits(value) {
        Some(value)
    } else {
        None
    }
}

/// Where the field that starts at `from` ends: at the next `x`, or at the
/// end of the text.
pub open spec fn field_end(text: Seq<u8>, from: int) -> int
    decreases text.len() - from,
{
    if from >= text.len() {
        text.len() as int
    } else if text[from] == 0x78 {
        from
    } else {
        field_end(text, from + 1)
    }
}

/// The resolution that a text of the form `WxH` spells: the first field
/// is the width, the second the height, further fields are not looked at.
/// A text of one field only, or with a field that spells no number, gives the
/// default resolution.
pub open spec fn resolution(text: Seq<u8>) -> Size {
    let first_end = field_end(text, 0);
    if first_end < text.len() {
        let second_end = field_end(text, first_end + 1);
        match (
            number(text.subrange(0, first_end)),
            number(text.subrange(first_end + 1, second_end)),
        ) {
            (Some(width), Some(height)) => Size { width: width as i32, height: height as i32 },
            _ => default_resolution(),
        }
    } else {
        default_resolution()
    }
}

/// A run of digits spells at least what any of its beginnings spells.
proof fn lemma_digits_value_grows(digits: Seq<u8>, n: int)
    requires
        0 <= n <= digits.len(),
        all_digits(digits),
    ensures
        0 <= digits_value(digits.take(n)) <= digits_value(digits),
    decreases digits.len(),
{
    if n == digits.len() {
        assert(digits.take(n) =~= digits);
        if n > 0 {
            lemma_digits_value_grows(digits.drop_last(), n - 1);
            assert(is_digit(digits[digits.len() - 1]));
        }
    } else {
        lemma_digits_value_grows(digits.drop_last(), n);
        assert(digits.drop_last().take(n) =~= digits.take(n));
        assert(is_digit(digits[digits.len() - 1]));
    }
}

/// Reads the whole number that the bytes from `start` up to `end` spell.
pub fn parse_number(bytes: &[u8], start: usize, end: usize) -> (value: Option<i32>)
    requires
        start <= end <= bytes.len(),
    ensures
        match value {
            Some(v) => number(bytes@.subrange(start as int, end as int)) == Some(v as int),
            None => number(bytes@.subrange(start as int, end as int)) is None,
        },
{
    let ghost field = bytes@.subrange(start as int, end as int);
    if start == end {
        return None;
    }
    assert(field[0] == bytes@[start as int]);
    let negative = bytes[start] == 0x2d;
    let first = if negative || bytes[start] == 0x2b {
        start + 1
    } else {
        start
    };
    let ghost digits = bytes@.subrange(first as int, end as int);
    assert(digits =~= digits_of(field));
    if first == end {
        return None;
    }
    let mut total: i64 = 0;
    let mut at = first;
    while at < end
        invariant
            start <= first <= at <= end <= bytes.len(),
            field == bytes@.subrange(start as int, end as int),
            digits == bytes@.subrange(first as int, end as int),
            digits == digits_of(field),
            all_digits(digits.take(at - first)),
            total == digits_value(digits.take(at - first)),
            0 <= total <= 0x8000_0000,
        decreases end - at,
    {
        let byte = bytes[at];
        assert(byte == digits[at - first]);
        if byte < 0x30 || byte > 0x39 {
            assert(!all_digits(digits));
            return None;
        }
        proof {
            let longer = digits.take(at - first + 1);
            assert(longer.drop_last() =~= digits.take(at - first));
            assert(longer.last() == byte);
            assert forall|i: int| 0 <= i < longer.len() implies is_digit(#[trigger] longer[i]) by {
                if i < at - first {
                    assert(longer[i] == digits.take(at - first)[i]);
                }
            }
        }
        total = total * 10 + (byte - 0x30) as i64;
        if total > 0x8000_0000 {
            proof {
                if all_digits(digits) {
                    lemma_digits_value_grows(digits, at - first + 1);
                }
            }
            return None;
        }
        at += 1;
    }
    assert(digits.take(at - first) =~= digits);
    if negative {
        Some((-total) as i32)
    } else if total > i32::MAX as i64 {
        None
    } else {
        Some(total as i32)
    }
}

/// Finds the end of the field that starts at `from`.
pub fn find_field_end(bytes: &[u8], from: usize) -> (end: usize)
    requires
        from <= bytes.len(),
    ensures
        end == field_end(bytes@, from as int),
        from <= end <= bytes.len(),
{
    let mut at = from;
    while at < bytes.len() && bytes[at] != 0x78
        invariant
            from <= at <= bytes.len(),
            field_end(bytes@, at as int) == field_end(bytes@, from as int),
        decreases bytes.len() - at,
    {
        at += 1;
    }
    at
}

/// Reads a resolution of the form `WxH`, and gives the default resolution
/// where the text is of another form.
pub fn parse_resolution(text: &str) -> (size: Size)
    ensures
        size == resolution(vstd::utf8::encode_utf8(text@)),
{
    let bytes = text.as_bytes();
    let first_end = find_field_end(bytes, 0);
    if first_end == bytes.len() {
        return Size { width: DEFAULT_SCREEN_WIDTH, height: DEFAULT_SCREEN_HEIGHT };
    }
    let second_end = find_field_end(bytes, first_end + 1);
    match (parse_number(bytes, 0, first_end), parse_number(bytes, first_end + 1, second_end)) {
        (Some(width), Some(height)) => Size { width: width, height: height },
        _ => Size { width: DEFAULT_SCREEN_WIDTH, height: DEFAULT_SCREEN_HEIGHT },
    }
}

/// How much is reported while running, for a number of `-d` on the command
/// line: each `-d` raises the level by one, up to two.
pub open spec fn debug_level(count: nat) -> nat {
    if count < 2 {
        count
    } else {
        2
    }
}

/// The parsed command line of the `getopts` crate. Nothing in it is looked
/// at here but through the functions below.
#[verifier::external_type_specification]
#[verifier::external_body]
pub struct ExMatches(Matches);

/// What a parsed command line holds: for each option that the parser knows
/// under some name, one entry for each time the option was given, with the
/// argument that came with it, if any.
pub uninterp spec fn matched(matches: Matches) -> Map<Seq<char>, Seq<Option<Seq<char>>>>;

/// `Matches::opt_defined` of the `getopts` crate: whether the parser knows
/// an option of this name.
#[verifier::external_body]
fn opt_defined(matches: &Matches, name: &str) -> (defined: bool)
    ensures
        defined == matched(*matches).dom().contains(name@),
{
    matches.opt_defined(name)
}

/// `Matches::opt_present` of the `getopts` crate: whether the option was
/// given at least once. It panics on a name that the parser does not know.
#[verifier::external_body]
fn opt_present(matches: &Matches, name: &str) -> (present: bool)
    requires
        matched(*matches).dom().contains(name@),
    ensures
        present == (matched(*matches)[name@].len() > 0),
{
    matches.opt_present(name)
}

/// `Matches::opt_count` of the `getopts` crate: how many times the option
/// was given. It panics on a name that the parser does not know.
#[verifier::external_body]
fn opt_count(matches: &Matches, name: &str) -> (count: usize)
    requires
        matched(*matches).dom().contains(name@),
    ensures
        count == matched(*matches)[name@].len(),
{
    matches.opt_count(name)
}

/// `Matches::opt_default` of the `getopts` crate: nothing where the option
/// was not given; else the argument that came with it the first time, or
/// `def` where it came without one. It panics on a name that the parser does
/// not know.
#[verifier::external_body]
fn opt_default(matches: &Matches, name: &str, def: &str) -> (value: Option<String>)
    requires
        matched(*matches).dom().contains(name@),
    ensures
        (value is Some) <==> matched(*matches)[name@].len() > 0,
        value matches Some(text) ==> text@ == first_argument(matched(*matches)[name@], def@),
{
    matches.opt_default(name, def)
}

/// The argument with which an option was given the first time, or `def`
/// where it was given without one.
pub open spec fn first_argument(given: Seq<Option<Seq<char>>>, def: Seq<char>) -> Seq<char> {
    match given[0] {
        Some(argument) => argument,
        None => def,
    }
}

/// Whether the parser of this command line knows the options that the
/// program reads: `r`, `f`, `s` and `d`.
pub open spec fn knows_options(matches: Matches) -> bool {
    &&& matched(matches).dom().contains("r"@)
    &&& matched(matches).dom().contains("f"@)
    &&& matched(matches).dom().contains("s"@)
    &&& matched(matches).dom().contains("d"@)
}

/// The settings that a parsed command line asks for: the resolution given
/// with `-r`, or the default one; `-f` for the full screen; `-s` for a single
/// player; and one level of reporting for each `-d`, up to two.
pub open spec fn settings(matches: Matches) -> Args {
    let found = matched(matches);
    Args {
        projector_res: if found["r"@].len() > 0 {
            resolution(vstd::utf8::encode_utf8(first_argument(found["r"@], "1920x1080"@)))
        } else {
            default_resolution()
        },
        flag_fullscreen: found["f"@].len() > 0,
        flag_solo: found["s"@].len() > 0,
        dbg_level: debug_level(found["d"@].len()) as usize,
    }
}

/// Reads the settings of a run from a parsed command line.
pub fn parse_args(matches: &Matches) -> (args: Args)
    requires
        knows_options(*matches),
    ensures
        args == settings(*matches),
{
    let projector_res = match opt_default(matches, "r", "1920x1080") {
        Some(text) => parse_resolution(text.as_str()),
        None => Size { width: DEFAULT_SCREEN_WIDTH, height: DEFAULT_SCREEN_HEIGHT },
    };
    let count = opt_count(matches, "d");
    Args {
        projector_res: projector_res,
        flag_fullscreen: opt_present(matches, "f"),
        flag_solo: opt_present(matches, "s"),
        dbg_level: if count < 2 {
            count
        } else {
            2
        },
    }
}

/// Reads the settings of a run from a parsed command line, if its parser
/// knows the options that the program reads.
pub fn try_parse_args(matches: &Matches) -> (args: Option<Args>)
    ensures
        match args {
            Some(found) => knows_options(*matches) && found == settings(*matches),
            None => !knows_options(*matches),
        },
{
    if opt_defined(matches, "r") && opt_defined(matches, "f") && opt_defined(matches, "s")
        && opt_defined(matches, "d") {
        Some(parse_args(matches))
    } else {
        None
    }
}

} // verus!
