use hpm_riscv_rt::boot::{boot_plan, boot_step, BootError, BootLayout, BootStep};
use hpm_riscv_rt::config::Features;
use hpm_riscv_rt::plic::{setup_interrupts, setup_op, ControllerOp, PLIC_ENABLE_WORDS, PLIC_SOURCES};
use hpm_riscv_rt::pma::{PmaError, PmaProgram};
use hpm_riscv_rt::region::RegionDescriptor;

fn empty_layout() -> BootLayout {
    let e = RegionDescriptor::zero_fill(0x2000, 0x2000);
    BootLayout {
        data: RegionDescriptor::copy_in(0x1000, 0x1000, 0x8000),
        bss: e,
        fast_text: RegionDescriptor::copy_in(0x0, 0x0, 0x9000),
        fast_data: e,
        fast_bss: e,
        noncacheable_data: e,
        noncacheable_bss: e,
        noncacheable_start: 0,
        noncacheable_end: 0,
        diag_block: 0,
        vector_table: 0x400,
    }
}

#[test]
fn empty_layout_reaches_entry_point() {
    for errata_fix in [false, true] {
        for noncacheable_region in [false, true] {
            let f = Features { errata_fix, noncacheable_region };
            let steps = boot_plan(f, empty_layout()).unwrap();
            let n = steps.len();
            assert_eq!(steps[n - 2], BootStep::EnterMain);
            assert_eq!(steps[n - 1], BootStep::SpinForever);
            assert_eq!(steps.iter().filter(|s| **s == BootStep::EnterMain).count(), 1);
        }
    }
}

#[test]
fn boot_steps_in_order() {
    let mut l = empty_layout();
    l.data = RegionDescriptor::copy_in(0x1000, 0x1100, 0x8000);
    l.noncacheable_bss = RegionDescriptor::zero_fill(0x3000, 0x3040);
    l.noncacheable_start = 0x0108_0000;
    l.noncacheable_end = 0x0110_0000;
    let f = Features { errata_fix: false, noncacheable_region: true };
    let steps = boot_plan(f, l).unwrap();
    assert_eq!(steps.len(), 17);
    assert_eq!(steps[0], BootStep::InitPointers);
    assert_eq!(steps[1], BootStep::InstallSpinTrap);
    assert_eq!(steps[2], BootStep::PreInit);
    assert_eq!(steps[3], BootStep::InitRegion(l.data));
    assert_eq!(steps[8], BootStep::InitRegion(l.noncacheable_data));
    assert_eq!(steps[9], BootStep::InitRegion(l.noncacheable_bss));
    assert_eq!(steps[10], BootStep::EnableFpu);
    assert_eq!(steps[11], BootStep::EnableCaches);
    assert_eq!(steps[12], BootStep::InvalidateDataCache);
    assert_eq!(
        steps[13],
        BootStep::ProgramPma(PmaProgram { addr0: None, addr1: Some(0x0042_FFFF), cfg0: Some(0x2F00) })
    );
    assert_eq!(steps[14], BootStep::SetupInterrupts(0x400));
    assert_eq!(steps[15], BootStep::EnterMain);
    assert_eq!(steps[16], BootStep::SpinForever);
    // Every region comes before the caches are enabled.
    let caches = steps.iter().position(|s| *s == BootStep::EnableCaches).unwrap();
    assert!(steps[caches..].iter().all(|s| !matches!(s, BootStep::InitRegion(_))));
}

#[test]
fn noncacheable_regions_follow_their_option() {
    let mut l = empty_layout();
    l.noncacheable_bss = RegionDescriptor::zero_fill(0x3000, 0x3040);
    let f = Features { errata_fix: true, noncacheable_region: false };
    let steps = boot_plan(f, l).unwrap();
    assert_eq!(steps.len(), 15);
    assert!(!steps.contains(&BootStep::InitRegion(l.noncacheable_bss)));
    assert_eq!(steps[7], BootStep::InitRegion(l.fast_bss));
    assert_eq!(steps[8], BootStep::EnableFpu);
    assert_eq!(steps[13], BootStep::EnterMain);
}

#[test]
fn boot_step_matches_plan() {
    let mut l = empty_layout();
    l.noncacheable_start = 0x0108_0000;
    l.noncacheable_end = 0x0110_0000;
    for errata_fix in [false, true] {
        for noncacheable_region in [false, true] {
            let f = Features { errata_fix, noncacheable_region };
            let steps = boot_plan(f, l).unwrap();
            for (i, s) in steps.iter().enumerate() {
                assert_eq!(boot_step(f, l, i), Ok(Some(*s)));
            }
            assert_eq!(boot_step(f, l, steps.len()), Ok(None));
            assert_eq!(boot_step(f, l, usize::MAX), Ok(None));
        }
    }
    l.vector_table = 0x401;
    let f = Features { errata_fix: false, noncacheable_region: false };
    assert_eq!(boot_step(f, l, 0), Err(BootError::MisalignedVectorTable));
}

#[test]
fn setup_op_matches_sequence() {
    let ops = setup_interrupts(0x0008_0000);
    for (i, op) in ops.iter().enumerate() {
        assert_eq!(setup_op(0x0008_0000, i), Some(*op));
    }
    assert_eq!(setup_op(0x0008_0000, ops.len()), None);
    assert_eq!(setup_op(0x0008_0000, usize::MAX), None);
}

#[test]
fn boot_refuses_bad_layouts() {
    let f = Features { errata_fix: true, noncacheable_region: true };
    let mut l = empty_layout();
    l.vector_table = 0x402;
    assert_eq!(boot_plan(f, l), Err(BootError::MisalignedVectorTable));
    let mut l = empty_layout();
    l.noncacheable_start = 0x1800;
    l.noncacheable_end = 0x2800;
    assert_eq!(boot_plan(f, l), Err(BootError::Pma(PmaError::NotNaturallyAligned)));
}

#[test]
fn interrupt_setup_sequence() {
    let ops = setup_interrupts(0x0008_0000);
    assert_eq!(ops.len(), 1 + PLIC_SOURCES + PLIC_ENABLE_WORDS + 6);
    assert_eq!(ops[0], ControllerOp::SetThreshold(0));
    assert_eq!(ops[1], ControllerOp::CompleteClaim(0));
    assert_eq!(ops[128], ControllerOp::CompleteClaim(127));
    assert_eq!(ops[129], ControllerOp::WriteEnableWord { index: 0, value: 0 });
    assert_eq!(ops[132], ControllerOp::WriteEnableWord { index: 3, value: 0 });
    assert_eq!(ops[133], ControllerOp::EnableCycleCounter);
    assert_eq!(ops[134], ControllerOp::WriteTrapVector(0x0008_0000));
    assert_eq!(ops[135], ControllerOp::EnableVectoredMode);
    assert_eq!(ops[136], ControllerOp::EnableCoreVectoring);
    assert_eq!(ops[137], ControllerOp::EnableGlobalInterrupts);
    assert_eq!(ops[138], ControllerOp::EnableMachineExternal);
}
