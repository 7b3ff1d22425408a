//! Region Configurator: validates a table of attribution-region descriptors
//! and turns an accepted table into the exact register words that program
//! the attribution unit, with the global enable word produced only after
//! every descriptor has passed validation.

use vstd::prelude::*;
use crate::addr::AddrRange;

verus! {

/// Hardware ceiling on concurrently programmed regions.
pub const MAX_REGIONS: usize = 8;

/// Attribution-region granularity: base and limit carry no information in
/// their low five bits.
pub const REGION_ALIGN: u32 = 32;

/// Global control word that switches the attribution unit on.
pub const UNIT_ENABLE: u32 = 1;

/// One attribution region: an inclusive span `[base, limit]`, its hardware
/// slot index, the non-secure-callable flag and the per-region enable flag.
#[derive(Clone, Copy, PartialEq, Eq, Structural, Debug)]
pub struct RegionDescriptor {
    pub index: u8,
    pub base: u32,
    pub limit: u32,
    pub non_secure_callable: bool,
    pub enabled: bool,
}

impl RegionDescriptor {
    /// The base address starts a 32-byte granule: its low five bits are zero.
    pub open spec fn base_aligned(self) -> bool {
        self.base % REGION_ALIGN == 0
    }

    /// The limit address ends a 32-byte granule: its low five bits are ones.
    pub open spec fn limit_aligned(self) -> bool {
        self.limit % REGION_ALIGN == REGION_ALIGN - 1
    }

    /// Descriptor invariant: slot index below the hardware ceiling, a
    /// non-empty span, and both boundaries on 32-byte granules.
    pub open spec fn wf(self) -> bool {
        &&& (self.index as usize) < MAX_REGIONS
        &&& self.base <= self.limit
        &&& self.base_aligned()
        &&& self.limit_aligned()
    }

    /// Whether the spans of two regions share at least one address.
    pub open spec fn spec_overlaps(self, other: RegionDescriptor) -> bool {
        self.base <= other.limit && other.base <= self.limit
    }

    pub fn is_well_formed(&self) -> (r: bool)
        ensures
            r == self.wf(),
    {
        (self.index as usize) < MAX_REGIONS
            && self.base <= self.limit
            && self.base % REGION_ALIGN == 0
            && self.limit % REGION_ALIGN == REGION_ALIGN - 1
    }

    pub fn overlaps(&self, other: &RegionDescriptor) -> (r: bool)
        ensures
            r == self.spec_overlaps(*other),
    {
        self.base <= other.limit && other.base <= self.limit
    }
}

/// Boot-time configuration errors. All are fatal: none may reach the
/// global enable step.
#[derive(Clone, Copy, PartialEq, Eq, Structural, Debug)]
pub enum ConfigError {
    /// The table holds more descriptors than the hardware has slots.
    TooManyRegions,
    /// The descriptor at `position` breaks its own invariant or does not
    /// name the slot matching its table position.
    MalformedDescriptor { position: usize },
    /// The non-secure-callable region at `position` is not fully contained
    /// in the designated callable window.
    CallableOutsideWindow { position: usize },
    /// The non-secure-callable region at `position` overlaps an enabled
    /// region that is not itself non-secure-callable.
    CallableOverlap { position: usize },
}

/// The descriptor at position `i` is well formed and sits in the slot that
/// matches its table position.
pub open spec fn descriptor_ok(regions: Seq<RegionDescriptor>, i: int) -> bool {
    regions[i].wf() && regions[i].index as int == i
}

/// A non-secure-callable descriptor lies fully inside the callable window.
pub open spec fn callable_contained(regions: Seq<RegionDescriptor>, window: AddrRange, i: int) -> bool {
    regions[i].non_secure_callable
        ==> window.spec_contains_span(regions[i].base, regions[i].limit)
}

/// A non-secure-callable descriptor overlaps no enabled region that is not
/// itself non-secure-callable.
pub open spec fn callable_isolated(regions: Seq<RegionDescriptor>, i: int) -> bool {
    regions[i].non_secure_callable ==> forall|j: int|
        0 <= j < regions.len() && j != i
            && (#[trigger] regions[j]).enabled && !regions[j].non_secure_callable
            ==> !regions[i].spec_overlaps(regions[j])
}

/// A region table is acceptable for programming exactly when it fits the
/// hardware and every descriptor passes its three checks.
pub open spec fn config_valid(regions: Seq<RegionDescriptor>, window: AddrRange) -> bool {
    &&& regions.len() <= MAX_REGIONS
    &&& forall|i: int| 0 <= i < regions.len() ==> #[trigger] descriptor_ok(regions, i)
    &&& forall|i: int| 0 <= i < regions.len() ==> #[trigger] callable_contained(regions, window, i)
    &&& forall|i: int| 0 <= i < regions.len() ==> #[trigger] callable_isolated(regions, i)
}

/// The first problem found at position `i`, in the order the validator
/// checks: descriptor shape, window containment, overlap.
pub open spec fn position_problem(regions: Seq<RegionDescriptor>, window: AddrRange, i: int) -> Option<ConfigError> {
    if !descriptor_ok(regions, i) {
        Some(ConfigError::MalformedDescriptor { position: i as usize })
    } else if !callable_contained(regions, window, i) {
        Some(ConfigError::CallableOutsideWindow { position: i as usize })
    } else if !callable_isolated(regions, i) {
        Some(ConfigError::CallableOverlap { position: i as usize })
    } else {
        None
    }
}

/// Checks a region table against the descriptor invariants, the callable
/// window and the overlap rule, scanning in table order and reporting the
/// first violation. Nothing is programmed here: a configuration that fails
/// must halt the boot before any enable write.
#[verifier::loop_isolation(false)]
pub fn validate_config(regions: &Vec<RegionDescriptor>, window: &AddrRange) -> (r: Result<(), ConfigError>)
    ensures
        r is Ok <==> config_valid(regions@, *window),
        r == Err::<(), ConfigError>(ConfigError::TooManyRegions) <==> regions@.len() > MAX_REGIONS,
        r matches Err(e) ==> e == ConfigError::TooManyRegions || exists|i: int|
            0 <= i < regions@.len()
                && #[trigger] position_problem(regions@, *window, i) == Some(e)
                && (forall|j: int| 0 <= j < i ==> position_problem(regions@, *window, j) is None),
{
    let n: usize = regions.len();
    if n > MAX_REGIONS {
        return Err(ConfigError::TooManyRegions);
    }
    let mut i: usize = 0;
    while i < n
        invariant
            n == regions@.len(),
            n <= MAX_REGIONS,
            i <= n,
            forall|j: int| 0 <= j < i ==> position_problem(regions@, *window, j) is None,
        decreases n - i,
    {
        let d = regions[i];
        if !(d.is_well_formed() && d.index as usize == i) {
            assert(!descriptor_ok(regions@, i as int));
            return Err(ConfigError::MalformedDescriptor { position: i });
        }
        if d.non_secure_callable {
            if !window.contains_span(d.base, d.limit) {
                assert(!callable_contained(regions@, *window, i as int));
                return Err(ConfigError::CallableOutsideWindow { position: i });
            }
            let mut j: usize = 0;
            while j < n
                invariant
                    n == regions@.len(),
                    i < n,
                    j <= n,
                    d == regions@[i as int],
                    d.non_secure_callable,
                    forall|k: int|
                        0 <= k < j && k != i
                            && (#[trigger] regions@[k]).enabled && !regions@[k].non_secure_callable
                            ==> !regions@[i as int].spec_overlaps(regions@[k]),
                decreases n - j,
            {
                if j != i {
                    let o = regions[j];
                    if o.enabled && !o.non_secure_callable && d.overlaps(&o) {
                        proof {
                            let jj = j as int;
                            assert((#[trigger] regions@[jj]).enabled
                                && !regions@[jj].non_secure_callable
                                && regions@[i as int].spec_overlaps(regions@[jj]));
                            assert(!callable_isolated(regions@, i as int));
                        }
                        return Err(ConfigError::CallableOverlap { position: i });
                    }
                }
                j = j + 1;
            }
            assert(callable_isolated(regions@, i as int));
        } else {
            assert(callable_isolated(regions@, i as int));
        }
        assert(position_problem(regions@, *window, i as int) is None);
        i = i + 1;
    }
    assert forall|k: int| 0 <= k < regions@.len() implies #[trigger] descriptor_ok(regions@, k) by {
        assert(position_problem(regions@, *window, k) is None);
    }
    assert forall|k: int| 0 <= k < regions@.len() implies #[trigger] callable_contained(
        regions@,
        *window,
        k,
    ) by {
        assert(position_problem(regions@, *window, k) is None);
    }
    assert forall|k: int| 0 <= k < regions@.len() implies #[trigger] callable_isolated(
        regions@,
        k,
    ) by {
        assert(position_problem(regions@, *window, k) is None);
    }
    Ok(())
}

/// One slot's worth of register writes for the attribution unit: the slot
/// selector, the base-address word and the limit-address word.
#[derive(Clone, Copy, PartialEq, Eq, Structural, Debug)]
pub struct RegionWrite {
    pub rnr: u32,
    pub rbar: u32,
    pub rlar: u32,
}

/// The limit-register word: the limit's granule bits, with the
/// non-secure-callable flag in bit 1 and the per-region enable in bit 0
/// taking the place of the limit's (all-ones) low bits.
pub open spec fn limit_word(d: RegionDescriptor) -> u32
    recommends
        d.wf(),
{
    ((d.limit - (REGION_ALIGN - 1)) + (if d.non_secure_callable {
        2int
    } else {
        0int
    }) + (if d.enabled {
        1int
    } else {
        0int
    })) as u32
}

/// The three register words that program one descriptor into its slot.
pub fn region_write(d: &RegionDescriptor) -> (w: RegionWrite)
    requires
        d.wf(),
    ensures
        w.rnr == d.index as u32,
        w.rbar == d.base,
        w.rlar == limit_word(*d),
{
    assert(d.limit >= REGION_ALIGN - 1) by {
        assert(d.limit % REGION_ALIGN == REGION_ALIGN - 1);
    }
    let mut rlar: u32 = d.limit - (REGION_ALIGN - 1);
    if d.non_secure_callable {
        rlar = rlar + 2;
    }
    if d.enabled {
        rlar = rlar + 1;
    }
    RegionWrite { rnr: d.index as u32, rbar: d.base, rlar }
}

/// Everything the boot code must write to repartition the address space:
/// the per-slot words in table order, then the one global enable word.
#[derive(Debug)]
pub struct ProgrammingPlan {
    pub writes: Vec<RegionWrite>,
    pub ctrl: u32,
}

/// Validates the region table and, only on acceptance, produces the full
/// programming plan. A rejected table yields no plan at all, so no enable
/// word can reach the hardware for it.
#[verifier::loop_isolation(false)]
pub fn plan_region_programming(regions: &Vec<RegionDescriptor>, window: &AddrRange) -> (r: Result<
    ProgrammingPlan,
    ConfigError,
>)
    ensures
        r is Ok <==> config_valid(regions@, *window),
        r matches Ok(p) ==> {
            &&& p.ctrl == UNIT_ENABLE
            &&& p.writes@.len() == regions@.len()
            &&& forall|i: int|
                0 <= i < regions@.len() ==> (#[trigger] p.writes@[i]).rnr == regions@[i].index
                    as u32 && p.writes@[i].rbar == regions@[i].base && p.writes@[i].rlar
                    == limit_word(regions@[i])
        },
        r matches Err(e) ==> e == ConfigError::TooManyRegions || exists|i: int|
            0 <= i < regions@.len()
                && #[trigger] position_problem(regions@, *window, i) == Some(e)
                && (forall|j: int| 0 <= j < i ==> position_problem(regions@, *window, j) is None),
        r == Err::<ProgrammingPlan, ConfigError>(ConfigError::TooManyRegions) <==> regions@.len()
            > MAX_REGIONS,
{
    match validate_config(regions, window) {
        Err(e) => Err(e),
        Ok(()) => {
            let mut writes: Vec<RegionWrite> = Vec::new();
            let n: usize = regions.len();
            let mut i: usize = 0;
            while i < n
                invariant
                    i <= n,
                    writes@.len() == i as int,
                    forall|k: int|
                        0 <= k < i ==> (#[trigger] writes@[k]).rnr == regions@[k].index as u32
                            && writes@[k].rbar == regions@[k].base && writes@[k].rlar == limit_word(
                            regions@[k],
                        ),
                decreases n - i,
            {
                proof {
                    assert(descriptor_ok(regions@, i as int));
                }
                let w = region_write(&regions[i]);
                writes.push(w);
                i = i + 1;
            }
            Ok(ProgrammingPlan { writes, ctrl: UNIT_ENABLE })
        },
    }
}

/// Law: the limit-register word is faithful to its descriptor — bit 0 is
/// the enable flag, bit 1 the non-secure-callable flag, and the granule
/// bits recover the limit address exactly.
pub proof fn lemma_limit_word_faithful(d: RegionDescriptor)
    requires
        d.wf(),
    ensures
        limit_word(d) % 2 == (if d.enabled {
            1int
        } else {
            0int
        }),
        (limit_word(d) / 2) % 2 == (if d.non_secure_callable {
            1int
        } else {
            0int
        }),
        (limit_word(d) / 32) * 32 + 31 == d.limit,
{
    let b = d.limit - 31;
    assert(b % 32 == 0 && 0 <= b <= u32::MAX - 31) by {
        assert(d.limit % 32 == 31);
    }
    let nsc: int = if d.non_secure_callable { 2 } else { 0 };
    let en: int = if d.enabled { 1 } else { 0 };
    assert(limit_word(d) == b + nsc + en);
    assert((b + nsc + en) % 2 == en && ((b + nsc + en) / 2) % 2 == nsc / 2 && ((b + nsc + en) / 32)
        * 32 == b) by (nonlinear_arith)
        requires
            b % 32 == 0,
            b >= 0,
            nsc == 0 || nsc == 2,
            en == 0 || en == 1,
    ;
}

/// Law: every descriptor of an accepted configuration covers a non-empty
/// span whose base and limit both sit on 32-byte granule boundaries.
pub proof fn lemma_accepted_descriptors_aligned(regions: Seq<RegionDescriptor>, window: AddrRange)
    requires
        config_valid(regions, window),
    ensures
        forall|i: int|
            0 <= i < regions.len() ==> (#[trigger] regions[i]).base <= regions[i].limit
                && regions[i].base % REGION_ALIGN == 0 && regions[i].limit % REGION_ALIGN
                == REGION_ALIGN - 1,
{
    assert forall|i: int|
        0 <= i < regions.len() implies (#[trigger] regions[i]).base <= regions[i].limit
        && regions[i].base % REGION_ALIGN == 0 && regions[i].limit % REGION_ALIGN == REGION_ALIGN
        - 1 by {
        assert(descriptor_ok(regions, i));
    }
}

/// Law: in an accepted configuration, every non-secure-callable region lies
/// fully inside the callable window and overlaps no enabled region that is
/// not itself non-secure-callable.
pub proof fn lemma_callable_contained_and_isolated(regions: Seq<RegionDescriptor>, window: AddrRange)
    requires
        config_valid(regions, window),
    ensures
        forall|i: int|
            0 <= i < regions.len() && (#[trigger] regions[i]).non_secure_callable
                ==> window.spec_contains_span(regions[i].base, regions[i].limit),
        forall|i: int, j: int|
            0 <= i < regions.len() && 0 <= j < regions.len() && j != i && (#[trigger] regions[i]).non_secure_callable
                && (#[trigger] regions[j]).enabled && !regions[j].non_secure_callable
                ==> !regions[i].spec_overlaps(regions[j]),
{
    assert forall|i: int|
        0 <= i < regions.len() && (#[trigger] regions[i]).non_secure_callable implies window.spec_contains_span(
        regions[i].base,
        regions[i].limit,
    ) by {
        assert(callable_contained(regions, window, i));
    }
    assert forall|i: int, j: int|
        0 <= i < regions.len() && 0 <= j < regions.len() && j != i && (#[trigger] regions[i]).non_secure_callable
            && (#[trigger] regions[j]).enabled && !regions[j].non_secure_callable implies !regions[i].spec_overlaps(
        regions[j],
    ) by {
        assert(callable_isolated(regions, i));
    }
}

} // verus!
