//! Which record-data texts the library hands to the text parser.
//!
//! The parser of `trust_dns_client` aborts on a few kinds of input. The
//! rules here are drawn tighter than those kinds, so that a text within them
//! is always answered with record data or with a refusal. They look at the
//! characters only, and leave out more than they have to.
//!
//! - Its tokenizer allows itself 4095 steps for a token. Three steps go
//!   into getting started; outside a parenthesised list a character costs
//!   one step, inside one at most two. So a text has at most
//!   [`MAX_RDATA_TEXT`] characters, and one with an opening parenthesis at
//!   most [`MAX_LIST_TEXT`].
//! - An SOA time is computed in 32 bits without a check: see
//!   [`time_step`].
//! - A type name in a CSYNC text is asserted to be made of letters and
//!   digits: see [`csync_char_ok`].
//! - The values of an `alpn` parameter in an SVCB or HTTPS text are taken
//!   for well-formed: see [`param_step`].

use vstd::prelude::*;
use vstd::string::*;

verus! {

/// The most characters a record-data text may have.
pub const MAX_RDATA_TEXT: usize = 4000;

/// The most characters a record-data text with an opening parenthesis may
/// have.
pub const MAX_LIST_TEXT: usize = 2000;

/// The number of the SOA record type.
pub const SOA_CODE: u16 = 6;

/// The number of the CSYNC record type.
pub const CSYNC_CODE: u16 = 62;

/// The number of the SVCB record type.
pub const SVCB_CODE: u16 = 64;

/// The number of the HTTPS record type, which shares its text form with SVCB.
pub const HTTPS_CODE: u16 = 65;

pub open spec fn is_digit(c: char) -> bool {
    '0' <= c && c <= '9'
}

pub open spec fn is_letter(c: char) -> bool {
    ('a' <= c && c <= 'z') || ('A' <= c && c <= 'Z')
}

/// The letters that scale an SOA time: seconds, minutes, hours, days, weeks.
pub open spec fn is_time_unit(c: char) -> bool {
    c == 's' || c == 'S' || c == 'm' || c == 'M' || c == 'h' || c == 'H' || c == 'd' || c == 'D'
        || c == 'w' || c == 'W'
}

/// The text is short enough for the tokenizer.
pub open spec fn length_ok(text: Seq<char>) -> bool {
    &&& text.len() <= MAX_RDATA_TEXT
    &&& text.contains('(') ==> text.len() <= MAX_LIST_TEXT
}

/// Where a reader of an SOA text stands in a row of digits and unit letters,
/// which is what a time is computed from.
#[derive(Clone, Copy, Debug, PartialEq, Eq, Structural)]
pub enum TimeScan {
    /// In no such row.
    Idle,
    /// In a row of `digits` digits so far; `small` says that the first of
    /// them is 0, 1, 2 or 3.
    Plain { digits: u8, small: bool },
    /// Past `terms` numbers that each had a unit letter behind it, and
    /// `digits` digits into the next number.
    Sum { terms: u8, digits: u8 },
    /// Past a unit letter that no number stood before: the time is refused
    /// there, and the rest of the row is not computed with.
    Stopped,
    /// Past a character that the rule does not admit.
    Refused,
}

/// One step of the reader.
///
/// There is no escape, so every token is a piece of the text as it stands,
/// and a time begins where its row begins. A plain number has at most ten
/// digits, and one of ten begins with 0, 1, 2 or 3: it is below
/// 4 000 000 000. A number with a unit letter behind it has at most three
/// digits, a row has at most seven such numbers, and at most three digits
/// follow the last: the sum is below 7 · 1000 weeks + 1000 seconds.
pub open spec fn time_step(state: TimeScan, c: char) -> TimeScan {
    if c == '\\' {
        TimeScan::Refused
    } else if is_digit(c) {
        match state {
            TimeScan::Idle => TimeScan::Plain { digits: 1, small: c <= '3' },
            TimeScan::Plain { digits, small } => if digits < 9 {
                TimeScan::Plain { digits: (digits + 1) as u8, small }
            } else if digits == 9 && small {
                TimeScan::Plain { digits: 10, small }
            } else {
                TimeScan::Refused
            },
            TimeScan::Sum { terms, digits } => if digits < 3 {
                TimeScan::Sum { terms, digits: (digits + 1) as u8 }
            } else {
                TimeScan::Refused
            },
            TimeScan::Stopped => TimeScan::Stopped,
            TimeScan::Refused => TimeScan::Refused,
        }
    } else if is_time_unit(c) {
        match state {
            TimeScan::Idle => TimeScan::Stopped,
            TimeScan::Plain { digits, small } => if digits <= 3 {
                TimeScan::Sum { terms: 1, digits: 0 }
            } else {
                TimeScan::Refused
            },
            TimeScan::Sum { terms, digits } => if digits == 0 {
                TimeScan::Stopped
            } else if terms < 7 {
                TimeScan::Sum { terms: (terms + 1) as u8, digits: 0 }
            } else {
                TimeScan::Refused
            },
            TimeScan::Stopped => TimeScan::Stopped,
            TimeScan::Refused => TimeScan::Refused,
        }
    } else {
        match state {
            TimeScan::Refused => TimeScan::Refused,
            _ => TimeScan::Idle,
        }
    }
}

/// Where the reader stands after the first `end` characters.
pub open spec fn time_scan(text: Seq<char>, end: int) -> TimeScan
    decreases end,
{
    if 0 < end <= text.len() {
        time_step(time_scan(text, end - 1), text[end - 1])
    } else {
        TimeScan::Idle
    }
}

/// The reader gets through the text.
pub open spec fn soa_text_ok(text: Seq<char>) -> bool {
    time_scan(text, text.len() as int) != TimeScan::Refused
}

/// The rule for one character of a CSYNC text: a space, a letter or a digit,
/// so every word is made of letters and digits.
pub open spec fn csync_char_ok(text: Seq<char>, i: int) -> bool {
    text[i] == ' ' || is_letter(text[i]) || is_digit(text[i])
}

pub open spec fn csync_text_ok(text: Seq<char>) -> bool {
    forall|i: int| 0 <= i < text.len() ==> #[trigger] csync_char_ok(text, i)
}

/// Where a reader of an SVCB text stands: in a word before any `=`, right
/// after the `=` or in the value behind it, after a comma in the value, or
/// past a character that the rule does not admit.
#[derive(Clone, Copy, Debug, PartialEq, Eq, Structural)]
pub enum ParamScan {
    Key,
    ValueStart,
    Value,
    Comma,
    Refused,
}

/// A character that may stand in an SVCB text at all: printable ASCII or a
/// space, but no quote and no escape. Words are then parted by spaces alone.
pub open spec fn is_svcb_char(c: char) -> bool {
    ' ' <= c && c <= '~' && c != '"' && c != '\\'
}

/// A character that may stand in a value of a parameter: one that the
/// tokenizer takes as part of a plain word wherever it stands.
pub open spec fn is_value_char(c: char) -> bool {
    is_svcb_char(c) && c != ' ' && c != ',' && c != '(' && c != ')' && c != ';' && c != '@' && c
        != '$'
}

/// One step of the reader. The value of a parameter begins right after the
/// first `=` of its word and ends with the word. It is a list of items with
/// commas between them; an item is not empty and is made of value
/// characters.
pub open spec fn param_step(state: ParamScan, c: char) -> ParamScan {
    match state {
        ParamScan::Refused => ParamScan::Refused,
        ParamScan::Key => if c == '=' {
            ParamScan::ValueStart
        } else if is_svcb_char(c) {
            ParamScan::Key
        } else {
            ParamScan::Refused
        },
        ParamScan::ValueStart => if is_value_char(c) {
            ParamScan::Value
        } else {
            ParamScan::Refused
        },
        ParamScan::Value => if is_value_char(c) {
            ParamScan::Value
        } else if c == ',' {
            ParamScan::Comma
        } else if c == ' ' {
            ParamScan::Key
        } else {
            ParamScan::Refused
        },
        ParamScan::Comma => if is_value_char(c) {
            ParamScan::Value
        } else if c == ' ' {
            ParamScan::Key
        } else {
            ParamScan::Refused
        },
    }
}

/// Where the reader stands after the first `end` characters.
pub open spec fn param_scan(text: Seq<char>, end: int) -> ParamScan
    decreases end,
{
    if 0 < end <= text.len() {
        param_step(param_scan(text, end - 1), text[end - 1])
    } else {
        ParamScan::Key
    }
}

/// The reader gets through the text, and no value is left empty at its end.
pub open spec fn svcb_text_ok(text: Seq<char>) -> bool {
    param_scan(text, text.len() as int) != ParamScan::Refused && param_scan(
        text,
        text.len() as int,
    ) != ParamScan::ValueStart
}

/// Whether a text for a record type of the given number is one that the
/// library hands to the parser.
pub open spec fn rdata_text_supported(code: u16, text: Seq<char>) -> bool {
    &&& length_ok(text)
    &&& code == SOA_CODE ==> soa_text_ok(text)
    &&& code == CSYNC_CODE ==> csync_text_ok(text)
    &&& (code == SVCB_CODE || code == HTTPS_CODE) ==> svcb_text_ok(text)
}

fn check_length(text: &str, len: usize) -> (ok: bool)
    requires
        len == text@.len(),
    ensures
        ok == length_ok(text@),
{
    if len > MAX_RDATA_TEXT {
        return false;
    }
    if len <= MAX_LIST_TEXT {
        return true;
    }
    let mut i: usize = 0;
    while i < len
        invariant
            i <= len,
            len == text@.len(),
            MAX_LIST_TEXT < len <= MAX_RDATA_TEXT,
            forall|j: int| 0 <= j < i ==> text@[j] != '(',
        decreases len - i,
    {
        if text.get_char(i) == '(' {
            assert(text@.contains('('));
            return false;
        }
        i = i + 1;
    }
    true
}

fn time_advance(state: TimeScan, c: char) -> (next: TimeScan)
    ensures
        next == time_step(state, c),
{
    let digit = '0' <= c && c <= '9';
    let unit = c == 's' || c == 'S' || c == 'm' || c == 'M' || c == 'h' || c == 'H' || c == 'd'
        || c == 'D' || c == 'w' || c == 'W';
    if c == '\\' {
        TimeScan::Refused
    } else if digit {
        match state {
            TimeScan::Idle => TimeScan::Plain { digits: 1, small: c <= '3' },
            TimeScan::Plain { digits, small } => if digits < 9 {
                TimeScan::Plain { digits: digits + 1, small }
            } else if digits == 9 && small {
                TimeScan::Plain { digits: 10, small }
            } else {
                TimeScan::Refused
            },
            TimeScan::Sum { terms, digits } => if digits < 3 {
                TimeScan::Sum { terms, digits: digits + 1 }
            } else {
                TimeScan::Refused
            },
            TimeScan::Stopped => TimeScan::Stopped,
            TimeScan::Refused => TimeScan::Refused,
        }
    } else if unit {
        match state {
            TimeScan::Idle => TimeScan::Stopped,
            TimeScan::Plain { digits, small } => if digits <= 3 {
                TimeScan::Sum { terms: 1, digits: 0 }
            } else {
                TimeScan::Refused
            },
            TimeScan::Sum { terms, digits } => if digits == 0 {
                TimeScan::Stopped
            } else if terms < 7 {
                TimeScan::Sum { terms: terms + 1, digits: 0 }
            } else {
                TimeScan::Refused
            },
            TimeScan::Stopped => TimeScan::Stopped,
            TimeScan::Refused => TimeScan::Refused,
        }
    } else {
        match state {
            TimeScan::Refused => TimeScan::Refused,
            _ => TimeScan::Idle,
        }
    }
}

fn check_soa_text(text: &str, len: usize) -> (ok: bool)
    requires
        len == text@.len(),
    ensures
        ok == soa_text_ok(text@),
{
    let mut state = TimeScan::Idle;
    let mut i: usize = 0;
    while i < len
        invariant
            i <= len,
            len == text@.len(),
            state == time_scan(text@, i as int),
        decreases len - i,
    {
        state = time_advance(state, text.get_char(i));
        i = i + 1;
    }
    match state {
        TimeScan::Refused => false,
        _ => true,
    }
}

fn check_csync_text(text: &str, len: usize) -> (ok: bool)
    requires
        len == text@.len(),
    ensures
        ok == csync_text_ok(text@),
{
    let mut i: usize = 0;
    while i < len
        invariant
            i <= len,
            len == text@.len(),
            forall|j: int| 0 <= j < i ==> #[trigger] csync_char_ok(text@, j),
        decreases len - i,
    {
        let c = text.get_char(i);
        let letter = ('a' <= c && c <= 'z') || ('A' <= c && c <= 'Z');
        let digit = '0' <= c && c <= '9';
        if !(c == ' ' || letter || digit) {
            assert(!csync_char_ok(text@, i as int));
            return false;
        }
        i = i + 1;
    }
    true
}

fn step(state: ParamScan, c: char) -> (next: ParamScan)
    ensures
        next == param_step(state, c),
{
    let admitted = ' ' <= c && c <= '~' && c != '"' && c != '\\';
    let value = admitted && c != ' ' && c != ',' && c != '(' && c != ')' && c != ';' && c != '@'
        && c != '$';
    match state {
        ParamScan::Refused => ParamScan::Refused,
        ParamScan::Key => if c == '=' {
            ParamScan::ValueStart
        } else if admitted {
            ParamScan::Key
        } else {
            ParamScan::Refused
        },
        ParamScan::ValueStart => if value {
            ParamScan::Value
        } else {
            ParamScan::Refused
        },
        ParamScan::Value => if value {
            ParamScan::Value
        } else if c == ',' {
            ParamScan::Comma
        } else if c == ' ' {
            ParamScan::Key
        } else {
            ParamScan::Refused
        },
        ParamScan::Comma => if value {
            ParamScan::Value
        } else if c == ' ' {
            ParamScan::Key
        } else {
            ParamScan::Refused
        },
    }
}

fn check_svcb_text(text: &str, len: usize) -> (ok: bool)
    requires
        len == text@.len(),
    ensures
        ok == svcb_text_ok(text@),
{
    let mut state = ParamScan::Key;
    let mut i: usize = 0;
    while i < len
        invariant
            i <= len,
            len == text@.len(),
            state == param_scan(text@, i as int),
        decreases len - i,
    {
        state = step(state, text.get_char(i));
        i = i + 1;
    }
    match state {
        ParamScan::Refused | ParamScan::ValueStart => false,
        ParamScan::Key | ParamScan::Value | ParamScan::Comma => true,
    }
}

/// Decides whether a text is handed to the parser for a record type of the
/// given number.
pub fn is_rdata_text_supported(code: u16, text: &str) -> (ok: bool)
    ensures
        ok == rdata_text_supported(code, text@),
{
    let len = text.unicode_len();
    if !check_length(text, len) {
        return false;
    }
    if code == SOA_CODE {
        check_soa_text(text, len)
    } else if code == CSYNC_CODE {
        check_csync_text(text, len)
    } else if code == SVCB_CODE || code == HTTPS_CODE {
        check_svcb_text(text, len)
    } else {
        true
    }
}

} // verus!
