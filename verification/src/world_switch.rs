//! World-Switch Controller: the one-shot computation that turns the
//! untrusted image's header into the values the boot code installs before
//! the irreversible transition into untrusted execution — the vector-table
//! base, the untrusted stack pointer and the branch target with its
//! instruction-set mode bit set.

use vstd::prelude::*;
use crate::addr::AddrRange;

verus! {

/// The untrusted image header, read once from the image base at
/// world-switch time: word 0 is the initial stack pointer, word 1 the
/// entry address.
#[derive(Clone, Copy, PartialEq, Eq, Structural, Debug)]
pub struct ImageHeader {
    pub initial_sp: u32,
    pub entry: u32,
}

/// Everything the switch installs: the untrusted vector-table base, the
/// untrusted stack pointer and the exchange-branch target.
#[derive(Clone, Copy, PartialEq, Eq, Structural, Debug)]
pub struct SwitchPlan {
    pub vtor: u32,
    pub stack_pointer: u32,
    pub branch_target: u32,
}

/// Sanity-bound failures on the header. Fatal at boot: no switch happens.
#[derive(Clone, Copy, PartialEq, Eq, Structural, Debug)]
pub enum SwitchError {
    /// Word 0 does not point into the expected untrusted RAM window.
    StackOutsideRam,
    /// Word 1 does not point into the expected untrusted code window.
    EntryOutsideCode,
}

/// The entry address with its instruction-set mode bit cleared: the plain
/// code address the branch lands on.
pub open spec fn entry_code_addr(entry: u32) -> u32 {
    (entry - entry % 2) as u32
}

/// The entry address with its instruction-set mode bit set, as the
/// exchange-branch instruction requires.
pub open spec fn with_mode_bit(entry: u32) -> u32 {
    (entry - entry % 2 + 1) as u32
}

/// A stack pointer is plausible when it points into, or just past the end
/// of, the expected untrusted RAM window (a full descending stack starts
/// one word past its highest usable address).
pub open spec fn sp_plausible(sp: u32, ram: AddrRange) -> bool {
    ram.base < sp && sp as int <= ram.limit as int + 1
}

/// An entry word is plausible when the code address it names (mode bit
/// aside) lies in the expected untrusted code window.
pub open spec fn entry_plausible(entry: u32, code: AddrRange) -> bool {
    code.spec_contains(entry_code_addr(entry))
}

/// The whole header passes the sanity bound check.
pub open spec fn header_plausible(h: ImageHeader, ram: AddrRange, code: AddrRange) -> bool {
    sp_plausible(h.initial_sp, ram) && entry_plausible(h.entry, code)
}

/// The values a switch on this header installs.
pub open spec fn spec_switch_plan(h: ImageHeader, image_base: u32) -> SwitchPlan {
    SwitchPlan {
        vtor: image_base,
        stack_pointer: h.initial_sp,
        branch_target: with_mode_bit(h.entry),
    }
}

/// Checks the header against the expected RAM and code windows and, only
/// on success, yields the values to install. The boot code performs the
/// actual register writes, the barrier and the exchange branch; a header
/// that fails here must halt the boot instead.
pub fn prepare_world_switch(
    header: &ImageHeader,
    image_base: u32,
    ram: &AddrRange,
    code: &AddrRange,
) -> (r: Result<SwitchPlan, SwitchError>)
    ensures
        r is Ok <==> header_plausible(*header, *ram, *code),
        r matches Ok(p) ==> p == spec_switch_plan(*header, image_base),
        r == Err::<SwitchPlan, SwitchError>(SwitchError::StackOutsideRam) <==> !sp_plausible(
            header.initial_sp,
            *ram,
        ),
        r == Err::<SwitchPlan, SwitchError>(SwitchError::EntryOutsideCode) <==> sp_plausible(
            header.initial_sp,
            *ram,
        ) && !entry_plausible(header.entry, *code),
{
    let sp = header.initial_sp;
    if !(sp > ram.base && sp - 1 <= ram.limit) {
        return Err(SwitchError::StackOutsideRam);
    }
    let code_addr: u32 = header.entry - header.entry % 2;
    if !code.contains(code_addr) {
        return Err(SwitchError::EntryOutsideCode);
    }
    let branch_target: u32 = code_addr + 1;
    Ok(SwitchPlan { vtor: image_base, stack_pointer: sp, branch_target })
}

/// Law: a successful switch plan installs exactly word 0 of the header as
/// the untrusted stack pointer, and branches to exactly word 1 with the
/// mode bit set — the landing address is word 1's code address unchanged.
pub proof fn lemma_switch_plan_matches_header(h: ImageHeader, image_base: u32)
    ensures
        spec_switch_plan(h, image_base).stack_pointer == h.initial_sp,
        spec_switch_plan(h, image_base).vtor == image_base,
        spec_switch_plan(h, image_base).branch_target == with_mode_bit(h.entry),
        with_mode_bit(h.entry) % 2 == 1,
        entry_code_addr(with_mode_bit(h.entry)) == entry_code_addr(h.entry),
{
}

} // verus!
