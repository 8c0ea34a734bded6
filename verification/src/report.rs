//! The lines a command prints.

use vstd::prelude::*;
use vstd::string::*;
use crate::chip_option::ChipOption;

verus! {

/// The sixteen lower-case hexadecimal digits, by value.
pub open spec fn hex_digits() -> Seq<char> {
    seq!['0', '1', '2', '3', '4', '5', '6', '7', '8', '9', 'a', 'b', 'c', 'd', 'e', 'f']
}

/// The `i`-th hexadecimal digit of `word`, counted from the most significant.
pub open spec fn nibble(word: u32, i: int) -> u32
    recommends
        0 <= i < 8,
{
    (word >> ((28 - 4 * i) as u32)) & 0xfu32
}

/// `word` as eight lower-case hexadecimal digits, zero-padded.
pub open spec fn hex_text(word: u32) -> Seq<char> {
    Seq::new(8, |i: int| hex_digits()[nibble(word, i) as int])
}

/// The line that reports the raw OPTCR value.
pub open spec fn register_dump_text(optcr: u32) -> Seq<char> {
    "Read OPTCR 0x"@ + hex_text(optcr)
}

/// The digit for a value below sixteen, as a one-character string.
fn hex_digit_str(value: u32) -> (digit: &'static str)
    requires
        value < 16,
    ensures
        digit@ == seq![hex_digits()[value as int]],
{
    proof {
        reveal_strlit("0");
        reveal_strlit("1");
        reveal_strlit("2");
        reveal_strlit("3");
        reveal_strlit("4");
        reveal_strlit("5");
        reveal_strlit("6");
        reveal_strlit("7");
        reveal_strlit("8");
        reveal_strlit("9");
        reveal_strlit("a");
        reveal_strlit("b");
        reveal_strlit("c");
        reveal_strlit("d");
        reveal_strlit("e");
        reveal_strlit("f");
    }
    match value {
        0 => "0",
        1 => "1",
        2 => "2",
        3 => "3",
        4 => "4",
        5 => "5",
        6 => "6",
        7 => "7",
        8 => "8",
        9 => "9",
        10 => "a",
        11 => "b",
        12 => "c",
        13 => "d",
        14 => "e",
        _ => "f",
    }
}

/// Formats the line that reports the raw OPTCR value, such as
/// `Read OPTCR 0x20000000`.
pub fn register_dump(optcr: u32) -> (line: String)
    ensures
        line@ == register_dump_text(optcr),
{
    let mut line = String::from_str("Read OPTCR 0x");
    let mut i: u32 = 0;
    while i < 8
        invariant
            i <= 8,
            line@ == "Read OPTCR 0x"@ + hex_text(optcr).subrange(0, i as int),
        decreases 8 - i,
    {
        let shift: u32 = 28 - 4 * i;
        let value: u32 = (optcr >> shift) & 0xfu32;
        assert((optcr >> shift) & 0xfu32 < 16) by (bit_vector);
        line.append(hex_digit_str(value));
        assert(line@ =~= "Read OPTCR 0x"@ + hex_text(optcr).subrange(0, i + 1)) by {
            assert(hex_text(optcr).subrange(0, i + 1) =~= hex_text(optcr).subrange(0, i as int)
                + seq![hex_text(optcr)[i as int]]);
        }
        i = i + 1;
    }
    assert(hex_text(optcr).subrange(0, 8) =~= hex_text(optcr));
    line
}

/// Something to be printed on standard output.
#[derive(Clone, Copy, Debug, PartialEq, Eq)]
pub enum Message {
    /// The raw OPTCR value, as read.
    RegisterDump { optcr: u32 },
    /// The option with the value that the device holds.
    Report { option: ChipOption },
}

impl Message {
    /// A report needs a value to show; a dump is always printable.
    pub open spec fn printable(self) -> bool {
        match self {
            Message::RegisterDump { .. } => true,
            Message::Report { option } => option.has_value(),
        }
    }

    /// The text of the message.
    pub open spec fn text(self) -> Seq<char> {
        match self {
            Message::RegisterDump { optcr } => register_dump_text(optcr),
            Message::Report { option } => option.text(),
        }
    }

    /// Renders the message as the line to print.
    pub fn render(self) -> (line: String)
        requires
            self.printable(),
        ensures
            line@ == self.text(),
    {
        match self {
            Message::RegisterDump { optcr } => register_dump(optcr),
            Message::Report { option } => option.describe(),
        }
    }
}

} // verus!
