//! Guest table: a fixed-capacity arena of guest-descriptor slots addressed
//! by index. A reserved extension point — no scheduling runs over it; the
//! hypercall exposed to the untrusted world only reports which slot is
//! current, and a fresh table reports slot zero.

use vstd::prelude::*;

verus! {

/// Fixed number of guest slots.
pub const MAX_GUESTS: usize = 8;

/// One guest slot: the base address of its image and whether the slot is
/// in use.
#[derive(Clone, Copy, PartialEq, Eq, Structural, Debug)]
pub struct GuestDescriptor {
    pub image_base: u32,
    pub active: bool,
}

/// The arena of guest slots plus the index of the current guest.
pub struct GuestTable {
    pub slots: Vec<GuestDescriptor>,
    pub current: usize,
}

impl GuestTable {
    /// Table invariant: exactly `MAX_GUESTS` slots, and the current index
    /// names one of them.
    pub open spec fn wf(self) -> bool {
        self.slots@.len() == MAX_GUESTS && self.current < MAX_GUESTS
    }

    /// A fresh table: every slot empty and inactive, slot zero current.
    pub fn new() -> (t: GuestTable)
        ensures
            t.wf(),
            t.current == 0,
            forall|i: int|
                0 <= i < MAX_GUESTS ==> t.slots@[i] == (GuestDescriptor {
                    image_base: 0,
                    active: false,
                }),
    {
        let mut slots: Vec<GuestDescriptor> = Vec::new();
        let mut i: usize = 0;
        while i < MAX_GUESTS
            invariant
                i <= MAX_GUESTS,
                slots@.len() == i as int,
                forall|j: int|
                    0 <= j < i ==> slots@[j] == (GuestDescriptor { image_base: 0, active: false }),
            decreases MAX_GUESTS - i,
        {
            slots.push(GuestDescriptor { image_base: 0, active: false });
            i = i + 1;
        }
        GuestTable { slots, current: 0 }
    }

    /// The hypercall the veneer exposes: which guest is current. On the
    /// fresh single-guest layout this is always zero.
    pub fn secure_current_vm(&self) -> (r: u32)
        requires
            self.wf(),
        ensures
            r == self.current as u32,
    {
        self.current as u32
    }

    /// The descriptor in slot `i`.
    pub fn slot(&self, i: usize) -> (d: GuestDescriptor)
        requires
            self.wf(),
            i < MAX_GUESTS,
        ensures
            d == self.slots@[i as int],
    {
        self.slots[i]
    }

    /// Installs a descriptor into slot `i`; no other slot moves, and the
    /// current index stays.
    pub fn install(&mut self, i: usize, d: GuestDescriptor)
        requires
            old(self).wf(),
            i < MAX_GUESTS,
        ensures
            final(self).wf(),
            final(self).slots@ == old(self).slots@.update(i as int, d),
            final(self).current == old(self).current,
    {
        self.slots.set(i, d);
    }
}

} // verus!
