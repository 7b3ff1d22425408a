use world_boundary::addr::AddrRange;
use world_boundary::boot::{BootFlow, BootStage};
use world_boundary::region::{ConfigError, RegionDescriptor};
use world_boundary::world_switch::{ImageHeader, SwitchError, prepare_world_switch};

fn ram_window() -> AddrRange {
    AddrRange { base: 0x2000_0000, limit: 0x2002_FFFF }
}

fn code_window() -> AddrRange {
    AddrRange { base: 0x0020_0000, limit: 0x0027_FFFF }
}

#[test]
fn switch_installs_header_words() {
    // Word 0 of the header becomes the stack pointer in effect; word 1,
    // with its mode bit set, becomes the branch target.
    let header = ImageHeader { initial_sp: 0x2003_0000, entry: 0x0020_0101 };
    let plan = prepare_world_switch(&header, 0x0020_0000, &ram_window(), &code_window()).unwrap();
    assert_eq!(plan.vtor, 0x0020_0000);
    assert_eq!(plan.stack_pointer, 0x2003_0000);
    assert_eq!(plan.branch_target, 0x0020_0101);
}

#[test]
fn mode_bit_is_set_on_even_entry() {
    let header = ImageHeader { initial_sp: 0x2001_0000, entry: 0x0020_0400 };
    let plan = prepare_world_switch(&header, 0x0020_0000, &ram_window(), &code_window()).unwrap();
    assert_eq!(plan.branch_target, 0x0020_0401);
}

#[test]
fn stack_outside_ram_rejected() {
    let header = ImageHeader { initial_sp: 0x1000_0000, entry: 0x0020_0101 };
    let r = prepare_world_switch(&header, 0x0020_0000, &ram_window(), &code_window());
    assert_eq!(r, Err(SwitchError::StackOutsideRam));
}

#[test]
fn entry_outside_code_rejected() {
    let header = ImageHeader { initial_sp: 0x2003_0000, entry: 0x0030_0001 };
    let r = prepare_world_switch(&header, 0x0020_0000, &ram_window(), &code_window());
    assert_eq!(r, Err(SwitchError::EntryOutsideCode));
}

#[test]
fn stack_at_top_of_ram_accepted() {
    // A full descending stack may start one word past the window's end.
    let header = ImageHeader { initial_sp: 0x2003_0000, entry: 0x0020_0001 };
    assert!(prepare_world_switch(&header, 0x0020_0000, &ram_window(), &code_window()).is_ok());
}

fn default_layout() -> Vec<RegionDescriptor> {
    vec![
        RegionDescriptor {
            index: 0,
            base: 0x0020_0000,
            limit: 0x0020_07FF,
            non_secure_callable: false,
            enabled: true,
        },
        RegionDescriptor {
            index: 1,
            base: 0x0020_0800,
            limit: 0x0020_08FF,
            non_secure_callable: true,
            enabled: true,
        },
    ]
}

#[test]
fn boot_runs_regions_then_switch() {
    let window = AddrRange { base: 0x0020_0800, limit: 0x0020_08FF };
    let mut boot = BootFlow::new();
    assert_eq!(boot.stage, BootStage::Start);
    let regions = default_layout();
    let plan = boot.program_regions(&regions, &window).unwrap();
    assert_eq!(plan.ctrl, 1);
    assert_eq!(plan.writes.len(), 2);
    assert_eq!(plan.writes[1].rnr, 1);
    assert_eq!(plan.writes[1].rbar, 0x0020_0800);
    assert_eq!(plan.writes[1].rlar, 0x0020_08E3);
    assert_eq!(boot.stage, BootStage::RegionsProgrammed);
    let header = ImageHeader { initial_sp: 0x2003_0000, entry: 0x0020_0101 };
    let switch = boot.world_switch(&header, 0x0020_0000, &ram_window(), &code_window()).unwrap();
    assert_eq!(switch.stack_pointer, 0x2003_0000);
    assert_eq!(boot.stage, BootStage::Switched);
}

#[test]
fn rejected_regions_do_not_advance_boot() {
    let window = AddrRange { base: 0x0020_0800, limit: 0x0020_08FF };
    let mut boot = BootFlow::new();
    let mut regions = default_layout();
    regions[0].base = 0x0020_0004;
    let r = boot.program_regions(&regions, &window);
    assert_eq!(r.unwrap_err(), ConfigError::MalformedDescriptor { position: 0 });
    assert_eq!(boot.stage, BootStage::Start);
}

#[test]
fn implausible_header_does_not_switch() {
    let window = AddrRange { base: 0x0020_0800, limit: 0x0020_08FF };
    let mut boot = BootFlow::new();
    let regions = default_layout();
    boot.program_regions(&regions, &window).unwrap();
    let header = ImageHeader { initial_sp: 0xFFFF_FFFF, entry: 0x0020_0101 };
    let r = boot.world_switch(&header, 0x0020_0000, &ram_window(), &code_window());
    assert_eq!(r.unwrap_err(), SwitchError::StackOutsideRam);
    assert_eq!(boot.stage, BootStage::RegionsProgrammed);
}
