//! The boot sequence, from reset to the application entry point.
//!
//! [`boot_plan`] decides the steps and their order, and [`boot_step`] gives
//! them one at a time without allocating; the startup code on the
//! target performs them one after the other. Any failure is fatal: when the
//! plan cannot be made the target halts before its first step.
use vstd::prelude::*;
use crate::config::Features;
use crate::pma::{PmaError, PmaProgram, configure_pma, noncacheable_entry, pma_program};
use crate::region::RegionDescriptor;

verus! {

/// The addresses the linker provides.
#[derive(Clone, Copy, Debug, PartialEq, Eq, Structural)]
pub struct BootLayout {
    /// Initialized data, copied from its load image.
    pub data: RegionDescriptor,
    /// Zero-initialized data.
    pub bss: RegionDescriptor,
    /// Code run from the tightly-coupled instruction memory.
    pub fast_text: RegionDescriptor,
    /// Initialized data in the tightly-coupled data memory.
    pub fast_data: RegionDescriptor,
    /// Zero-initialized data in the tightly-coupled data memory.
    pub fast_bss: RegionDescriptor,
    /// Initialized non-cacheable data.
    pub noncacheable_data: RegionDescriptor,
    /// Zero-initialized non-cacheable data.
    pub noncacheable_bss: RegionDescriptor,
    /// Start of the non-cacheable RAM range.
    pub noncacheable_start: u32,
    /// End of the non-cacheable RAM range.
    pub noncacheable_end: u32,
    /// Address of the diagnostic-logging block; 0 when it is not linked in.
    pub diag_block: u32,
    /// Address of the interrupt vector table.
    pub vector_table: usize,
}

/// Why boot cannot proceed.
#[derive(Clone, Copy, Debug, PartialEq, Eq, Structural)]
pub enum BootError {
    /// The memory attributes cannot be programmed.
    Pma(PmaError),
    /// The vector table is not aligned to four bytes.
    MisalignedVectorTable,
}

/// One step of the boot sequence.
#[derive(Clone, Copy, Debug, PartialEq, Eq, Structural)]
pub enum BootStep {
    /// Load the global pointer and the stack pointer.
    InitPointers,
    /// Point the trap vector at a handler that spins, until setup is done.
    InstallSpinTrap,
    /// Call the application's pre-initialization hook.
    PreInit,
    /// Copy in or zero-fill a region.
    InitRegion(RegionDescriptor),
    /// Enable the floating-point unit.
    EnableFpu,
    /// Enable the instruction and data caches.
    EnableCaches,
    /// Invalidate every data-cache line.
    InvalidateDataCache,
    /// Program the memory attributes.
    ProgramPma(PmaProgram),
    /// Set up interrupts with the vector table at this address.
    SetupInterrupts(usize),
    /// Call the application entry point, which does not return.
    EnterMain,
    /// Spin forever, should the entry point return.
    SpinForever,
}

/// The first steps: pointers, the placeholder trap vector and the
/// pre-initialization hook.
pub open spec fn setup_steps() -> Seq<BootStep> {
    seq![BootStep::InitPointers, BootStep::InstallSpinTrap, BootStep::PreInit]
}

/// The region steps: the five regions every image has, then the
/// non-cacheable data and bss when the non-cacheable option is on.
pub open spec fn region_steps(features: Features, layout: BootLayout) -> Seq<BootStep> {
    seq![
        BootStep::InitRegion(layout.data),
        BootStep::InitRegion(layout.bss),
        BootStep::InitRegion(layout.fast_text),
        BootStep::InitRegion(layout.fast_data),
        BootStep::InitRegion(layout.fast_bss),
    ] + if features.noncacheable_region {
        seq![
            BootStep::InitRegion(layout.noncacheable_data),
            BootStep::InitRegion(layout.noncacheable_bss),
        ]
    } else {
        Seq::empty()
    }
}

/// The steps that bring up the floating-point unit and the caches.
pub open spec fn cache_steps() -> Seq<BootStep> {
    seq![BootStep::EnableFpu, BootStep::EnableCaches, BootStep::InvalidateDataCache]
}

/// The last steps: the memory attributes, interrupt setup, and the jump to
/// the application.
pub open spec fn final_steps(layout: BootLayout, p: PmaProgram) -> Seq<BootStep> {
    seq![
        BootStep::ProgramPma(p),
        BootStep::SetupInterrupts(layout.vector_table),
        BootStep::EnterMain,
        BootStep::SpinForever,
    ]
}

/// The boot sequence under `features` for `layout`: every region is
/// initialized before the caches and the memory attributes are configured.
pub open spec fn boot_steps(features: Features, layout: BootLayout) -> Result<Seq<BootStep>, BootError> {
    match pma_program(features, layout.diag_block, layout.noncacheable_start, layout.noncacheable_end) {
        Err(e) => Err(BootError::Pma(e)),
        Ok(p) => if layout.vector_table % 4 != 0 {
            Err(BootError::MisalignedVectorTable)
        } else {
            Ok(setup_steps() + region_steps(features, layout) + cache_steps() + final_steps(layout, p))
        },
    }
}

/// Decides the boot sequence under `features` for `layout`: every region is
/// initialized, empty or not, then the caches are brought up, the memory
/// attributes programmed, interrupts set up, and the application entered.
pub fn boot_plan(features: Features, layout: BootLayout) -> (r: Result<Vec<BootStep>, BootError>)
    ensures
        match r {
            Ok(v) => boot_steps(features, layout) == Ok::<Seq<BootStep>, BootError>(v@),
            Err(e) => boot_steps(features, layout) == Err::<Seq<BootStep>, BootError>(e),
        },
{
    let pma = match configure_pma(
        features,
        layout.diag_block,
        layout.noncacheable_start,
        layout.noncacheable_end,
    ) {
        Err(e) => return Err(BootError::Pma(e)),
        Ok(p) => p,
    };
    if layout.vector_table % 4 != 0 {
        return Err(BootError::MisalignedVectorTable);
    }
    let mut steps: Vec<BootStep> = vec![
        BootStep::InitPointers,
        BootStep::InstallSpinTrap,
        BootStep::PreInit,
        BootStep::InitRegion(layout.data),
        BootStep::InitRegion(layout.bss),
        BootStep::InitRegion(layout.fast_text),
        BootStep::InitRegion(layout.fast_data),
        BootStep::InitRegion(layout.fast_bss),
    ];
    if features.noncacheable_region {
        steps.push(BootStep::InitRegion(layout.noncacheable_data));
        steps.push(BootStep::InitRegion(layout.noncacheable_bss));
    }
    steps.push(BootStep::EnableFpu);
    steps.push(BootStep::EnableCaches);
    steps.push(BootStep::InvalidateDataCache);
    steps.push(BootStep::ProgramPma(pma));
    steps.push(BootStep::SetupInterrupts(layout.vector_table));
    steps.push(BootStep::EnterMain);
    steps.push(BootStep::SpinForever);
    assert(steps@ =~= setup_steps() + region_steps(features, layout) + cache_steps() + final_steps(layout, pma));
    Ok(steps)
}

/// The `i`-th step of the boot sequence, or none past its end. It makes no
/// allocation, so it can run before RAM is initialized.
pub fn boot_step(features: Features, layout: BootLayout, i: usize) -> (r: Result<Option<BootStep>, BootError>)
    ensures
        match boot_steps(features, layout) {
            Err(e) => r == Err::<Option<BootStep>, BootError>(e),
            Ok(s) => r == Ok::<Option<BootStep>, BootError>(
                if i < s.len() { Some(s[i as int]) } else { None },
            ),
        },
{
    let pma = match configure_pma(
        features,
        layout.diag_block,
        layout.noncacheable_start,
        layout.noncacheable_end,
    ) {
        Err(e) => return Err(BootError::Pma(e)),
        Ok(p) => p,
    };
    if layout.vector_table % 4 != 0 {
        return Err(BootError::MisalignedVectorTable);
    }
    let ghost s = setup_steps() + region_steps(features, layout) + cache_steps() + final_steps(layout, pma);
    let regions: usize = if features.noncacheable_region { 7 } else { 5 };
    assert(s.len() == regions + 10);
    if i < 3 {
        assert(s[i as int] == setup_steps()[i as int]);
        Ok(Some(if i == 0 { BootStep::InitPointers } else if i == 1 { BootStep::InstallSpinTrap } else { BootStep::PreInit }))
    } else if i < 3 + regions {
        assert(s[i as int] == region_steps(features, layout)[i - 3]);
        let k: usize = i - 3;
        Ok(Some(BootStep::InitRegion(
            if k == 0 { layout.data }
            else if k == 1 { layout.bss }
            else if k == 2 { layout.fast_text }
            else if k == 3 { layout.fast_data }
            else if k == 4 { layout.fast_bss }
            else if k == 5 { layout.noncacheable_data }
            else { layout.noncacheable_bss },
        )))
    } else if i < 10 + regions {
        let k: usize = i - 3 - regions;
        assert(s[i as int] == (cache_steps() + final_steps(layout, pma))[k as int]);
        Ok(Some(
            if k == 0 { BootStep::EnableFpu }
            else if k == 1 { BootStep::EnableCaches }
            else if k == 2 { BootStep::InvalidateDataCache }
            else if k == 3 { BootStep::ProgramPma(pma) }
            else if k == 4 { BootStep::SetupInterrupts(layout.vector_table) }
            else if k == 5 { BootStep::EnterMain }
            else { BootStep::SpinForever },
        ))
    } else {
        Ok(None)
    }
}

/// A boot sequence initializes every region before the caches are enabled
/// and the memory attributes programmed, enters the application exactly
/// once, right after interrupt setup, and spins if it ever returns.
pub proof fn lemma_boot_order(features: Features, layout: BootLayout)
    requires
        boot_steps(features, layout) is Ok,
    ensures
        ({
            let s = boot_steps(features, layout)->Ok_0;
            let caches = s.len() - 7;
            &&& s.len() >= 7
            &&& s[caches] == BootStep::EnableFpu
            &&& s[caches + 1] == BootStep::EnableCaches
            &&& s[caches + 2] == BootStep::InvalidateDataCache
            &&& s[caches + 3] is ProgramPma
            &&& forall|i: int| caches <= i < s.len() ==> !(#[trigger] s[i] is InitRegion)
            &&& s[s.len() - 3] == BootStep::SetupInterrupts(layout.vector_table)
            &&& s[s.len() - 2] == BootStep::EnterMain
            &&& s.last() == BootStep::SpinForever
            &&& forall|i: int| 0 <= i < s.len() && i != s.len() - 2 ==> #[trigger] s[i] != BootStep::EnterMain
        }),
{
    let s = boot_steps(features, layout)->Ok_0;
    let p = pma_program(features, layout.diag_block, layout.noncacheable_start, layout.noncacheable_end)->Ok_0;
    let head = setup_steps() + region_steps(features, layout);
    let tail = cache_steps() + final_steps(layout, p);
    assert(s =~= head + tail);
    assert(tail.len() == 7);
    assert forall|i: int| 0 <= i < s.len() && i != s.len() - 2 implies #[trigger] s[i] != BootStep::EnterMain by {
        if i < setup_steps().len() {
            assert(s[i] == setup_steps()[i]);
        } else if i < head.len() {
            assert(s[i] == region_steps(features, layout)[i - 3]);
        } else {
            assert(s[i] == tail[i - head.len()]);
        }
    }
    assert forall|i: int| s.len() - 7 <= i < s.len() implies !(#[trigger] s[i] is InitRegion) by {
        assert(s[i] == tail[i - head.len()]);
    }
}

/// With every region empty, boot reaches the application entry point, once
/// and after interrupt setup, and every region step has no word to write.
/// This holds for any non-cacheable RAM range the memory attributes can
/// encode, and for any aligned vector table.
pub proof fn lemma_empty_layout_reaches_main(features: Features, layout: BootLayout)
    requires
        layout.data.is_empty_spec(),
        layout.bss.is_empty_spec(),
        layout.fast_text.is_empty_spec(),
        layout.fast_data.is_empty_spec(),
        layout.fast_bss.is_empty_spec(),
        layout.noncacheable_data.is_empty_spec(),
        layout.noncacheable_bss.is_empty_spec(),
        noncacheable_entry(layout.noncacheable_start, layout.noncacheable_end) is Ok,
        layout.vector_table % 4 == 0,
    ensures
        boot_steps(features, layout) is Ok,
        ({
            let s = boot_steps(features, layout)->Ok_0;
            &&& s[s.len() - 3] == BootStep::SetupInterrupts(layout.vector_table)
            &&& s[s.len() - 2] == BootStep::EnterMain
            &&& forall|i: int| 0 <= i < s.len() && i != s.len() - 2 ==> #[trigger] s[i] != BootStep::EnterMain
            &&& forall|i: int| 0 <= i < s.len() && (#[trigger] s[i]) is InitRegion ==> s[i]->InitRegion_0.word_count() == 0
        }),
{
    lemma_boot_order(features, layout);
    let s = boot_steps(features, layout)->Ok_0;
    let p = pma_program(features, layout.diag_block, layout.noncacheable_start, layout.noncacheable_end)->Ok_0;
    let head = setup_steps() + region_steps(features, layout);
    let tail = cache_steps() + final_steps(layout, p);
    assert(s =~= head + tail);
    assert forall|i: int| 0 <= i < s.len() && (#[trigger] s[i]) is InitRegion implies s[i]->InitRegion_0.word_count() == 0 by {
        if i < setup_steps().len() {
            assert(s[i] == setup_steps()[i]);
        } else if i < head.len() {
            assert(s[i] == region_steps(features, layout)[i - 3]);
        } else {
            assert(s[i] == tail[i - head.len()]);
        }
    }
}

} // verus!
