//! Reading and programming NDBANK, the flash-banking option bit of the
//! STM32F76x/F77x, through a debug probe.
//!
//! The library holds what a command decides and computes: the bit
//! arithmetic on OPTCR, the little-endian framing of register words, the
//! lines that are printed, the staging of the option words in a flash
//! loader, and the order in which the probe is asked to work. Attaching,
//! reading memory, printing and committing are left to the caller, which
//! follows the actions that [`sequence::step`] hands out.

pub mod bits;
pub mod chip_option;
pub mod error;
pub mod registers;
pub mod report;
pub mod sequence;
pub mod staging;
pub mod word;
