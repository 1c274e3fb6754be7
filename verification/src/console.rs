//! The operator's console: what a line typed at it asks for.

use vstd::prelude::*;
use crate::device::{default_frc_ppm, DeviceCommand};

verus! {

/// What a line asks for.
#[derive(Debug, PartialEq, Eq)]
pub enum ConsoleCommand {
    /// The line is blank.
    Nothing,
    /// Show the list of commands.
    Help,
    /// Leave the console.
    Exit,
    /// Show which device the commands go to.
    Status,
    /// `device` was typed without a name.
    DeviceUsage,
    /// Send the following commands to the device `name`.
    SetDevice { name: String },
    /// Send `command` to the device.
    Send { command: DeviceCommand },
    /// `set-offset` was typed without a value.
    SetOffsetUsage,
    /// Set the temperature offset to the number that `text` stands for,
    /// in degrees and with a fraction if it has one. The caller reads the
    /// number.
    SetOffset { text: String },
    /// `set-sleep` was typed without a number of seconds.
    SetSleepUsage,
    /// What followed `set-sleep` is not a number of seconds.
    InvalidSeconds,
    /// The first word is no command.
    Unknown { word: String },
}

/// A command as contracts see it.
pub enum ConsoleCommandView {
    Nothing,
    Help,
    Exit,
    Status,
    DeviceUsage,
    SetDevice { name: Seq<char> },
    Send { command: DeviceCommand },
    SetOffsetUsage,
    SetOffset { text: Seq<char> },
    SetSleepUsage,
    InvalidSeconds,
    Unknown { word: Seq<char> },
}

impl View for ConsoleCommand {
    type V = ConsoleCommandView;

    open spec fn view(&self) -> ConsoleCommandView {
        match self {
            ConsoleCommand::Nothing => ConsoleCommandView::Nothing,
            ConsoleCommand::Help => ConsoleCommandView::Help,
            ConsoleCommand::Exit => ConsoleCommandView::Exit,
            ConsoleCommand::Status => ConsoleCommandView::Status,
            ConsoleCommand::DeviceUsage => ConsoleCommandView::DeviceUsage,
            ConsoleCommand::SetDevice { name } => ConsoleCommandView::SetDevice { name: name@ },
            ConsoleCommand::Send { command } => ConsoleCommandView::Send { command: *command },
            ConsoleCommand::SetOffsetUsage => ConsoleCommandView::SetOffsetUsage,
            ConsoleCommand::SetOffset { text } => ConsoleCommandView::SetOffset { text: text@ },
            ConsoleCommand::SetSleepUsage => ConsoleCommandView::SetSleepUsage,
            ConsoleCommand::InvalidSeconds => ConsoleCommandView::InvalidSeconds,
            ConsoleCommand::Unknown { word } => ConsoleCommandView::Unknown { word: word@ },
        }
    }
}

/// The words of a line: what `str::split_whitespace` yields for it, in
/// the order of the line.
pub uninterp spec fn whitespace_tokens(line: Seq<char>) -> Seq<Seq<char>>;

/// The texts of `words`, in their order.
pub open spec fn word_views(words: Seq<String>) -> Seq<Seq<char>> {
    Seq::new(words.len(), |i: int| words[i]@)
}

/// Whether a character is one of the white-space characters of ASCII:
/// tab, line feed, vertical tab, form feed, carriage return or space.
pub open spec fn is_ascii_space(c: char) -> bool {
    ('\u{9}' <= c && c <= '\u{d}') || c == ' '
}

/// Calls `str::split_whitespace` on `line` and copies each word it yields
/// into a `String`. The contract gives the words a name and says of them
/// what the documentation of the function says of every line: no word is
/// empty, and none holds white space. Of white space only the characters
/// of ASCII are spoken of here.
#[verifier::external_body]
fn split_on_whitespace(line: &str) -> (words: Vec<String>)
    ensures
        word_views(words@) == whitespace_tokens(line@),
        forall|i: int| 0 <= i < words@.len() ==> (#[trigger] words@[i])@.len() > 0,
        forall|i: int, k: int|
            0 <= i < words@.len() && 0 <= k < words@[i]@.len() ==> !is_ascii_space(
                #[trigger] words@[i]@[k],
            ),
{
    let mut words = Vec::new();
    for word in line.split_whitespace() {
        words.push(String::from(word));
    }
    words
}

/// The number that a decimal digit stands for.
pub open spec fn digit_value(c: char) -> Option<nat> {
    if '0' <= c && c <= '9' {
        Some((c as nat - '0' as nat) as nat)
    } else {
        None
    }
}

/// The number that a row of decimal digits stands for; nothing if one of
/// the characters is no digit.
pub open spec fn digits_value(digits: Seq<char>) -> Option<nat>
    decreases digits.len(),
{
    if digits.len() == 0 {
        Some(0)
    } else {
        match (digits_value(digits.drop_last()), digit_value(digits.last())) {
            (Some(high), Some(low)) => Some(10 * high + low),
            _ => None,
        }
    }
}

/// The number that a text stands for: it may begin with a plus sign, and
/// one decimal digit or more must follow and nothing else.
pub open spec fn decimal_value(text: Seq<char>) -> Option<nat> {
    let digits = if text.len() > 0 && text[0] == '+' {
        text.skip(1)
    } else {
        text
    };
    if digits.len() == 0 {
        None
    } else {
        digits_value(digits)
    }
}

/// The number that a text stands for, if it is no more than `limit`.
pub open spec fn decimal_up_to(text: Seq<char>, limit: nat) -> Option<nat> {
    match decimal_value(text) {
        Some(value) => if value <= limit {
            Some(value)
        } else {
            None
        },
        None => None,
    }
}

/// A row of digits stands for at least as much as any row it begins with.
proof fn lemma_digits_value_grows(digits: Seq<char>, shorter: int)
    requires
        0 <= shorter <= digits.len(),
        digits_value(digits).is_some(),
    ensures
        digits_value(digits.take(shorter)).is_some(),
        digits_value(digits.take(shorter)).unwrap() <= digits_value(digits).unwrap(),
    decreases digits.len(),
{
    if shorter == digits.len() {
        assert(digits.take(shorter) =~= digits);
    } else {
        assert(digits.drop_last().take(shorter) =~= digits.take(shorter));
        lemma_digits_value_grows(digits.drop_last(), shorter);
    }
}

/// The number that `text` stands for in decimal digits, with or without a
/// plus sign before them, if it is a number of at most 64 bits.
pub fn parse_decimal(text: &str) -> (number: Option<u64>)
    ensures
        match number {
            Some(value) => decimal_up_to(text@, u64::MAX as nat) == Some(value as nat),
            None => decimal_up_to(text@, u64::MAX as nat).is_none(),
        },
{
    let length = text.unicode_len();
    let start: usize = if length > 0 && text.get_char(0) == '+' {
        1
    } else {
        0
    };
    if start >= length {
        return None;
    }
    let ghost digits = text@.skip(start as int);
    let mut value: u64 = 0;
    let mut i: usize = start;
    proof {
        assert(digits.take(0) =~= Seq::<char>::empty());
        if start == 0 {
            assert(digits =~= text@);
        }
    }
    while i < length
        invariant
            start <= i <= length,
            length == text@.len(),
            digits == text@.skip(start as int),
            decimal_value(text@) == digits_value(digits),
            digits_value(digits.take(i - start)) == Some(value as nat),
        decreases length - i,
    {
        let c = text.get_char(i);
        proof {
            assert(digits.take(i + 1 - start).drop_last() =~= digits.take(i - start));
            assert(digits.take(i + 1 - start).last() == c);
            if digits_value(digits).is_some() {
                lemma_digits_value_grows(digits, i + 1 - start);
            }
        }
        if c < '0' || c > '9' {
            proof {
                if digits_value(digits).is_some() {
                    assert(digits_value(digits.take(i + 1 - start)).is_some());
                }
            }
            return None;
        }
        let low: u64 = (c as u32 - '0' as u32) as u64;
        let scaled = match value.checked_mul(10) {
            Some(scaled) => scaled,
            None => {
                return None;
            },
        };
        value = match scaled.checked_add(low) {
            Some(sum) => sum,
            None => {
                return None;
            },
        };
        i = i + 1;
    }
    proof {
        assert(digits.take(i - start) =~= digits);
    }
    Some(value)
}

/// The number of at most 16 bits that `text` stands for.
pub fn parse_u16(text: &str) -> (number: Option<u16>)
    ensures
        match number {
            Some(value) => decimal_up_to(text@, u16::MAX as nat) == Some(value as nat),
            None => decimal_up_to(text@, u16::MAX as nat).is_none(),
        },
{
    match parse_decimal(text) {
        Some(value) => if value <= u16::MAX as u64 {
            Some(value as u16)
        } else {
            None
        },
        None => None,
    }
}

/// What the words of a line ask for. The first word names the command:
/// - `help`, `h` or `?`; `exit`, `quit` or `q`; `status`;
/// - `device` with the name of a device;
/// - `noop`, `get-offset` and `get-sleep`, which are sent as they are;
/// - `frc` with a target in parts per million, which is 422 if it is
///   missing or no number of 16 bits;
/// - `set-offset` with a value, which is handed on as text;
/// - `set-sleep` with a number of seconds.
pub open spec fn interpreted(words: Seq<Seq<char>>) -> ConsoleCommandView {
    if words.len() == 0 {
        ConsoleCommandView::Nothing
    } else if words[0] == "help"@ || words[0] == "h"@ || words[0] == "?"@ {
        ConsoleCommandView::Help
    } else if words[0] == "exit"@ || words[0] == "quit"@ || words[0] == "q"@ {
        ConsoleCommandView::Exit
    } else if words[0] == "status"@ {
        ConsoleCommandView::Status
    } else if words[0] == "device"@ {
        if words.len() < 2 {
            ConsoleCommandView::DeviceUsage
        } else {
            ConsoleCommandView::SetDevice { name: words[1] }
        }
    } else if words[0] == "noop"@ {
        ConsoleCommandView::Send { command: DeviceCommand::NoOp }
    } else if words[0] == "frc"@ {
        ConsoleCommandView::Send {
            command: DeviceCommand::StartFrc {
                target_ppm: if words.len() > 1 {
                    match decimal_up_to(words[1], u16::MAX as nat) {
                        Some(ppm) => ppm as u16,
                        None => 422,
                    }
                } else {
                    422
                },
            },
        }
    } else if words[0] == "set-offset"@ {
        if words.len() < 2 {
            ConsoleCommandView::SetOffsetUsage
        } else {
            ConsoleCommandView::SetOffset { text: words[1] }
        }
    } else if words[0] == "get-offset"@ {
        ConsoleCommandView::Send { command: DeviceCommand::GetTempOffset }
    } else if words[0] == "set-sleep"@ {
        if words.len() < 2 {
            ConsoleCommandView::SetSleepUsage
        } else {
            match decimal_up_to(words[1], u64::MAX as nat) {
                Some(seconds) => ConsoleCommandView::Send {
                    command: DeviceCommand::SetDeepSleepTime { seconds: seconds as u64 },
                },
                None => ConsoleCommandView::InvalidSeconds,
            }
        }
    } else if words[0] == "get-sleep"@ {
        ConsoleCommandView::Send { command: DeviceCommand::GetDeepSleepTime }
    } else {
        ConsoleCommandView::Unknown { word: words[0] }
    }
}

fn is_word(token: &String, word: &str) -> (same: bool)
    ensures
        same == (token@ == word@),
{
    let other = String::from_str(word);
    *token == other
}

/// What the words of a line ask for.
pub fn interpret(words: &Vec<String>) -> (command: ConsoleCommand)
    ensures
        command@ == interpreted(word_views(words@)),
{
    if words.len() == 0 {
        return ConsoleCommand::Nothing;
    }
    let first = &words[0];
    proof {
        assert(word_views(words@)[0] == first@);
        if words.len() > 1 {
            assert(word_views(words@)[1] == words@[1]@);
        }
    }
    if is_word(first, "help") || is_word(first, "h") || is_word(first, "?") {
        ConsoleCommand::Help
    } else if is_word(first, "exit") || is_word(first, "quit") || is_word(first, "q") {
        ConsoleCommand::Exit
    } else if is_word(first, "status") {
        ConsoleCommand::Status
    } else if is_word(first, "device") {
        if words.len() < 2 {
            ConsoleCommand::DeviceUsage
        } else {
            ConsoleCommand::SetDevice { name: words[1].clone() }
        }
    } else if is_word(first, "noop") {
        ConsoleCommand::Send { command: DeviceCommand::NoOp }
    } else if is_word(first, "frc") {
        let target_ppm: u16 = if words.len() > 1 {
            match parse_u16(words[1].as_str()) {
                Some(ppm) => ppm,
                None => default_frc_ppm(),
            }
        } else {
            default_frc_ppm()
        };
        ConsoleCommand::Send { command: DeviceCommand::StartFrc { target_ppm } }
    } else if is_word(first, "set-offset") {
        if words.len() < 2 {
            ConsoleCommand::SetOffsetUsage
        } else {
            ConsoleCommand::SetOffset { text: words[1].clone() }
        }
    } else if is_word(first, "get-offset") {
        ConsoleCommand::Send { command: DeviceCommand::GetTempOffset }
    } else if is_word(first, "set-sleep") {
        if words.len() < 2 {
            ConsoleCommand::SetSleepUsage
        } else {
            match parse_decimal(words[1].as_str()) {
                Some(seconds) => ConsoleCommand::Send {
                    command: DeviceCommand::SetDeepSleepTime { seconds },
                },
                None => ConsoleCommand::InvalidSeconds,
            }
        }
    } else if is_word(first, "get-sleep") {
        ConsoleCommand::Send { command: DeviceCommand::GetDeepSleepTime }
    } else {
        ConsoleCommand::Unknown { word: first.clone() }
    }
}

/// What a line typed at the console asks for: what its words, split at
/// white space, ask for.
pub fn parse_line(line: &str) -> (command: ConsoleCommand)
    ensures
        command@ == interpreted(whitespace_tokens(line@)),
        command@ matches ConsoleCommandView::Unknown { word } ==> word.len() > 0,
        command@ matches ConsoleCommandView::SetDevice { name } ==> name.len() > 0,
        command@ matches ConsoleCommandView::SetOffset { text } ==> text.len() > 0,
{
    let words = split_on_whitespace(line);
    proof {
        if words@.len() > 0 {
            assert(word_views(words@)[0] == words@[0]@);
        }
        if words@.len() > 1 {
            assert(word_views(words@)[1] == words@[1]@);
        }
    }
    interpret(&words)
}

} // verus!
