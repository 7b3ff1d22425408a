//! Trusted boot flow: region programming must complete before the world
//! switch, the switch happens at most once, and no region can be
//! reprogrammed afterwards. The controller's states admit each step
//! exactly once and in that order.

use vstd::prelude::*;
use crate::addr::AddrRange;
use crate::region::{ConfigError, ProgrammingPlan, RegionDescriptor, config_valid, limit_word, plan_region_programming, position_problem, MAX_REGIONS, UNIT_ENABLE};
use crate::world_switch::{ImageHeader, SwitchError, SwitchPlan, entry_plausible, header_plausible, prepare_world_switch, sp_plausible, spec_switch_plan};

verus! {

/// Where the trusted boot stands.
#[derive(Clone, Copy, PartialEq, Eq, Structural, Debug)]
pub enum BootStage {
    /// Nothing programmed yet; regions may still be chosen.
    Start,
    /// The attribution unit is programmed and enabled; regions are frozen.
    RegionsProgrammed,
    /// The one-way transition into untrusted execution has been taken.
    Switched,
}

/// One-shot sequencer for the trusted boot.
pub struct BootFlow {
    pub stage: BootStage,
}

impl BootFlow {
    pub fn new() -> (b: BootFlow)
        ensures
            b.stage == BootStage::Start,
    {
        BootFlow { stage: BootStage::Start }
    }

    /// Validates the region table and produces the programming plan. Only
    /// an accepted table advances the boot: on rejection the stage stays
    /// at `Start` and the caller must halt — a rejected configuration may
    /// never reach the enable write, let alone the switch.
    pub fn program_regions(
        &mut self,
        regions: &Vec<RegionDescriptor>,
        window: &AddrRange,
    ) -> (r: Result<ProgrammingPlan, ConfigError>)
        requires
            old(self).stage == BootStage::Start,
        ensures
            r is Ok <==> config_valid(regions@, *window),
            r matches Ok(p) ==> {
                &&& p.ctrl == UNIT_ENABLE
                &&& p.writes@.len() == regions@.len()
                &&& forall|i: int|
                    0 <= i < regions@.len() ==> (#[trigger] p.writes@[i]).rnr == regions@[i].index
                        as u32 && p.writes@[i].rbar == regions@[i].base && p.writes@[i].rlar
                        == limit_word(regions@[i])
            },
            r == Err::<ProgrammingPlan, ConfigError>(ConfigError::TooManyRegions) <==> regions@.len()
                > MAX_REGIONS,
            r matches Err(e) ==> e == ConfigError::TooManyRegions || exists|i: int|
                0 <= i < regions@.len()
                    && #[trigger] position_problem(regions@, *window, i) == Some(e)
                    && (forall|j: int|
                        0 <= j < i ==> position_problem(regions@, *window, j) is None),
            r is Ok ==> final(self).stage == BootStage::RegionsProgrammed,
            r is Err ==> final(self).stage == BootStage::Start,
    {
        match plan_region_programming(regions, window) {
            Ok(p) => {
                self.stage = BootStage::RegionsProgrammed;
                Ok(p)
            },
            Err(e) => Err(e),
        }
    }

    /// Checks the untrusted image header and produces the switch values.
    /// Only runs after the regions are in place, and a success is final:
    /// the stage moves to `Switched` and neither step can run again.
    pub fn world_switch(
        &mut self,
        header: &ImageHeader,
        image_base: u32,
        ram: &AddrRange,
        code: &AddrRange,
    ) -> (r: Result<SwitchPlan, SwitchError>)
        requires
            old(self).stage == BootStage::RegionsProgrammed,
        ensures
            r is Ok <==> header_plausible(*header, *ram, *code),
            r matches Ok(p) ==> p == spec_switch_plan(*header, image_base),
            r == Err::<SwitchPlan, SwitchError>(SwitchError::StackOutsideRam) <==> !sp_plausible(
                header.initial_sp,
                *ram,
            ),
            r == Err::<SwitchPlan, SwitchError>(SwitchError::EntryOutsideCode) <==> sp_plausible(
                header.initial_sp,
                *ram,
            ) && !entry_plausible(header.entry, *code),
            r is Ok ==> final(self).stage == BootStage::Switched,
            r is Err ==> final(self).stage == BootStage::RegionsProgrammed,
    {
        match prepare_world_switch(header, image_base, ram, code) {
            Ok(p) => {
                self.stage = BootStage::Switched;
                Ok(p)
            },
            Err(e) => Err(e),
        }
    }
}

} // verus!
