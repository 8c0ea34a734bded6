//! Staging the two option words in a flash loader, ready to be committed.

use vstd::prelude::*;
use crate::error::CommandError;
use crate::registers::{FlashCr, FLASH_ALGORITHM_OPTCR_ADDR, FLASH_ALGORITHM_OPTCR1_ADDR};
use crate::word::{bytes_of_word, u32_to_le_bytes};

verus! {

/// `probe_rs::Target`: the description of an attached chip. Only handed on.
#[verifier::external_type_specification]
#[verifier::external_body]
pub struct ExTarget(probe_rs::Target);

/// `probe_rs::flashing::FlashLoader`: collects the bytes to be programmed
/// until they are committed to the device.
#[verifier::external_type_specification]
#[verifier::external_body]
pub struct ExFlashLoader(probe_rs::flashing::FlashLoader);

/// The bytes a flash loader has staged so far, by address.
pub uninterp spec fn staged(loader: probe_rs::flashing::FlashLoader) -> Map<u64, u8>;

/// Whether the memory map that a flash loader was made with covers the
/// `len` bytes from `address` on, by one region or by several in a row: the
/// outcome of the walk that the loader makes before it stages anything.
pub uninterp spec fn covered(loader: probe_rs::flashing::FlashLoader, address: u64, len: nat) -> bool;

/// The same walk over the memory map of a target.
pub uninterp spec fn target_covers(target: probe_rs::Target, address: u64, len: nat) -> bool;

/// `Target::flash_loader` builds a loader from a copy of the target's memory
/// map, with an empty builder: nothing is staged in it yet, and it covers
/// what the target covers.
pub assume_specification[ probe_rs::Target::flash_loader ](target: &probe_rs::Target) -> (fresh:
    probe_rs::flashing::FlashLoader)
    ensures
        staged(fresh) =~= Map::empty(),
        forall|a: u64, n: nat| #[trigger] covered(fresh, a, n) == target_covers(*target, a, n),
;

/// `FlashLoader::add_data` accepts a chunk exactly when its memory map
/// covers the range and none of its addresses is staged already. When it
/// accepts, the bytes of `data` are staged at `address` onwards, beside what
/// was there; when it refuses, the loader is as before. The memory map is
/// never changed. The sum of address and length must fit in 64 bits.
pub assume_specification[ probe_rs::flashing::FlashLoader::add_data ](
    loader: &mut probe_rs::flashing::FlashLoader,
    address: u64,
    data: &[u8],
) -> (result: Result<(), probe_rs::flashing::FlashError>)
    requires
        address + data@.len() <= u64::MAX,
    ensures
        result is Ok <==> covered(*old(loader), address, data@.len()) && staged(
            *old(loader),
        ).dom().disjoint(block_at(address, data@).dom()),
        result is Ok ==> staged(*final(loader)) == staged(*old(loader)).union_prefer_right(
            block_at(address, data@),
        ),
        result is Err ==> staged(*final(loader)) == staged(*old(loader)),
        forall|a: u64, n: nat| #[trigger]
            covered(*final(loader), a, n) == covered(*old(loader), a, n),
;

/// The bytes `data`, laid out from `address` upwards.
pub open spec fn block_at(address: u64, data: Seq<u8>) -> Map<u64, u8> {
    Map::new(
        |a: u64| address <= a < address + data.len(),
        |a: u64| data[a - address],
    )
}

/// What the flash algorithm is given for a register snapshot: OPTCR at its
/// staging address, OPTCR1 in the four bytes after it.
pub open spec fn register_image(regs: FlashCr) -> Map<u64, u8> {
    block_at(FLASH_ALGORITHM_OPTCR_ADDR, bytes_of_word(regs.optcr)).union_prefer_right(
        block_at(FLASH_ALGORITHM_OPTCR1_ADDR, bytes_of_word(regs.optcr1)),
    )
}

/// Turns the loader's verdict on one staging call into the command's own
/// result, keeping the loader's error as it came.
pub fn flash_result(result: Result<(), probe_rs::flashing::FlashError>) -> (lifted: Result<
    (),
    CommandError,
>)
    ensures
        lifted == match result {
            Ok(_) => Ok::<(), CommandError>(()),
            Err(e) => Err::<(), CommandError>(CommandError::ProbeRsFlashError(e)),
        },
{
    match result {
        Ok(_) => Ok(()),
        Err(e) => Err(CommandError::from(e)),
    }
}

/// Stages one word at `address`, least significant byte first. The word is
/// accepted exactly when the loader's memory map covers its four bytes and
/// none of them is staged already.
fn stage_word(loader: &mut probe_rs::flashing::FlashLoader, address: u64, word: u32) -> (result:
    Result<(), CommandError>)
    requires
        address + 4 <= u64::MAX,
    ensures
        result is Ok <==> covered(*old(loader), address, 4) && staged(
            *old(loader),
        ).dom().disjoint(block_at(address, bytes_of_word(word)).dom()),
        result is Ok ==> staged(*final(loader)) == staged(*old(loader)).union_prefer_right(
            block_at(address, bytes_of_word(word)),
        ),
        result matches Err(e) ==> e is ProbeRsFlashError && staged(*final(loader)) == staged(
            *old(loader),
        ),
        forall|a: u64, n: nat| #[trigger]
            covered(*final(loader), a, n) == covered(*old(loader), a, n),
{
    let bytes = u32_to_le_bytes(word);
    flash_result(loader.add_data(address, bytes.as_slice()))
}

/// Whether the memory map of `target` has room for both option words at
/// their staging addresses.
pub open spec fn accepts_registers(target: probe_rs::Target) -> bool {
    target_covers(target, FLASH_ALGORITHM_OPTCR_ADDR, 4) && target_covers(
        target,
        FLASH_ALGORITHM_OPTCR1_ADDR,
        4,
    )
}

/// Makes a fresh loader for `target` and stages both registers in it.
///
/// The staging succeeds exactly when the target's memory map covers the
/// four bytes at each of the two staging addresses. The loader then holds
/// the two words, each at its address, and nothing else. Otherwise the
/// loader's refusal comes back as a flash error.
pub fn stage_registers(target: &probe_rs::Target, regs: FlashCr) -> (result: Result<
    probe_rs::flashing::FlashLoader,
    CommandError,
>)
    ensures
        result is Ok <==> accepts_registers(*target),
        result matches Ok(loader) ==> staged(loader) == register_image(regs),
        result matches Err(e) ==> e is ProbeRsFlashError,
{
    let mut loader = target.flash_loader();
    stage_word(&mut loader, FLASH_ALGORITHM_OPTCR_ADDR, regs.optcr)?;
    stage_word(&mut loader, FLASH_ALGORITHM_OPTCR1_ADDR, regs.optcr1)?;
    assert(staged(loader) =~= register_image(regs));
    Ok(loader)
}

/// The image of a snapshot covers the eight bytes from the OPTCR staging
/// address on and nothing else: the four bytes of OPTCR, then the four of
/// OPTCR1, each least significant byte first.
pub proof fn lemma_register_image(regs: FlashCr)
    ensures
        forall|a: u64|
            register_image(regs).dom().contains(a) <==> FLASH_ALGORITHM_OPTCR_ADDR <= a
                < FLASH_ALGORITHM_OPTCR_ADDR + 8,
        forall|i: int|
            0 <= i < 4 ==> #[trigger] register_image(regs)[(FLASH_ALGORITHM_OPTCR_ADDR + i) as u64]
                == bytes_of_word(regs.optcr)[i],
        forall|i: int|
            0 <= i < 4 ==> #[trigger] register_image(regs)[(FLASH_ALGORITHM_OPTCR1_ADDR
                + i) as u64] == bytes_of_word(regs.optcr1)[i],
{
}

} // verus!
