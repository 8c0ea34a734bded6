//! The option a command is about, and what is said of it on the console.

use vstd::prelude::*;
use vstd::string::*;
use crate::registers::{lemma_ndbank_is_bit_29, ndbank_of, read_ndbank};

verus! {

/// The chip option that was asked for.
#[derive(Clone, Copy, Debug, PartialEq, Eq)]
pub enum ChipOption {
    /// The NDBANK bit. Without a value the bit is read; with one, the bit is
    /// programmed to it.
    NDBANK { value: Option<bool> },
}

/// What a command does with the device.
#[derive(Clone, Copy, Debug, PartialEq, Eq)]
pub enum Mode {
    /// Query the bit and leave the device as it is.
    Read,
    /// Program the bit to the given value.
    Write(bool),
}

impl ChipOption {
    /// The mode an option selects.
    pub open spec fn spec_mode(self) -> Mode {
        match self {
            ChipOption::NDBANK { value: None } => Mode::Read,
            ChipOption::NDBANK { value: Some(v) } => Mode::Write(v),
        }
    }

    /// Read mode when no value was given, write mode with the value otherwise.
    pub fn mode(self) -> (mode: Mode)
        ensures
            mode == self.spec_mode(),
    {
        match self {
            ChipOption::NDBANK { value: None } => Mode::Read,
            ChipOption::NDBANK { value: Some(v) } => Mode::Write(v),
        }
    }

    /// The console text for an option that carries a value.
    pub open spec fn text(self) -> Seq<char> {
        match self {
            ChipOption::NDBANK { value } => if value == Some(true) {
                "NDBANK is true"@
            } else {
                "NDBANK is false"@
            },
        }
    }

    /// Whether the option carries a value.
    pub open spec fn has_value(self) -> bool {
        self matches ChipOption::NDBANK { value: Some(_) }
    }

    /// Renders the option and its value; there must be a value to render.
    pub fn describe(self) -> (line: String)
        requires
            self.has_value(),
        ensures
            line@ == self.text(),
    {
        match self {
            ChipOption::NDBANK { value: Some(true) } => String::from_str("NDBANK is true"),
            _ => String::from_str("NDBANK is false"),
        }
    }
}

/// The option as the hardware holds it, given the raw OPTCR value.
pub open spec fn option_read_from(option: ChipOption, optcr: u32) -> ChipOption {
    match option {
        ChipOption::NDBANK { .. } => ChipOption::NDBANK { value: Some(ndbank_of(optcr)) },
    }
}

/// Answers a query from a freshly read OPTCR. Whatever value the request
/// carried is dropped: the answer is the bit that the device holds.
pub fn read_option_byte(option: ChipOption, optcr: u32) -> (answer: ChipOption)
    ensures
        answer == option_read_from(option, optcr),
{
    match option {
        ChipOption::NDBANK { .. } => ChipOption::NDBANK { value: Some(read_ndbank(optcr)) },
    }
}

/// What is reported follows bit 29 of the raw value and nothing else: set
/// reports true, clear reports false, and neither the other bits nor a value
/// in the request can change it.
pub proof fn lemma_report_follows_bit_29(option: ChipOption, optcr: u32, other: u32)
    ensures
        option_read_from(option, optcr) == (ChipOption::NDBANK {
            value: Some(optcr & 0x2000_0000u32 != 0u32),
        }),
        option_read_from(option, optcr).has_value(),
        option_read_from(option, optcr).text() == if optcr & 0x2000_0000u32 != 0u32 {
            "NDBANK is true"@
        } else {
            "NDBANK is false"@
        },
        optcr & 0x2000_0000u32 == other & 0x2000_0000u32 ==> option_read_from(option, optcr)
            == option_read_from(option, other),
{
    lemma_ndbank_is_bit_29(optcr, other);
    lemma_ndbank_is_bit_29(other, optcr);
}

} // verus!
