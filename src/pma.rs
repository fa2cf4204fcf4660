//! Memory-attribute entries that make address ranges non-cacheable.
//!
//! An entry covers a naturally aligned power-of-two (NAPOT) range. Entry 0
//! covers the window of the diagnostic-logging control block, entry 1 the
//! non-cacheable RAM region. The configuration of both lives in one register,
//! written once, and the write is followed by an instruction fence.
//!
//! A non-empty non-cacheable region that is not a naturally aligned power of
//! two cannot be encoded; it is refused in every build rather than
//! programmed with an entry that covers some other range.
use vstd::prelude::*;
use crate::config::Features;

verus! {

/// Entry configuration: NAPOT range, non-cacheable bufferable memory.
pub const ENTRY_NAPOT_NC_BUF: u32 = 0x0F;

/// Entry configuration: NAPOT range, non-cacheable bufferable memory with
/// atomic operations.
pub const ENTRY_NAPOT_NC_BUF_AMO: u32 = 0x2F;

/// Size of the window made non-cacheable around the diagnostic block.
pub const DIAG_WINDOW: u32 = 0x1000;

/// Smallest range a NAPOT entry covers.
pub const NAPOT_MIN: u32 = 8;

/// Why the memory attributes cannot be programmed.
#[derive(Clone, Copy, Debug, PartialEq, Eq, Structural)]
pub enum PmaError {
    /// The non-cacheable region is not a power of two of at least
    /// [`NAPOT_MIN`] bytes aligned to its own size.
    NotNaturallyAligned,
}

/// The register writes that program the memory attributes. An absent field
/// is not written. When `cfg0` is present it is written in one write, after
/// the address registers, and followed by an instruction fence.
#[derive(Clone, Copy, Debug, PartialEq, Eq, Structural)]
pub struct PmaProgram {
    /// Address register of entry 0, the diagnostic block's window.
    pub addr0: Option<u32>,
    /// Address register of entry 1, the non-cacheable RAM region.
    pub addr1: Option<u32>,
    /// The configuration register of entries 0 to 3.
    pub cfg0: Option<u32>,
}

/// The program that writes nothing.
pub open spec fn no_writes() -> PmaProgram {
    PmaProgram { addr0: None, addr1: None, cfg0: None }
}

/// The NAPOT encoding of the range of `length` bytes at `base`.
pub open spec fn napot_value(base: int, length: int) -> int {
    (base + length / 2 - 1) / 4
}

/// Whether `[start, start + length)` can be one NAPOT entry: a power of two
/// of at least [`NAPOT_MIN`] bytes, aligned to its own size.
pub open spec fn is_napot_range(start: u32, length: u32) -> bool {
    &&& length >= NAPOT_MIN
    &&& length & ((length - 1) as u32) == 0
    &&& start & ((length - 1) as u32) == 0
}

/// Encodes the range of `length` bytes at `base` as a NAPOT address
/// register value: `(base + length / 2 - 1) >> 2`.
pub fn napot_encode(base: u32, length: u32) -> (r: u32)
    requires
        1 <= base + length / 2 <= u32::MAX,
    ensures
        r == napot_value(base as int, length as int),
{
    let half: u32 = length >> 1;
    assert(half == length / 2) by (bit_vector)
        requires
            half == length >> 1,
    ;
    let x: u32 = base + half - 1;
    let r: u32 = x >> 2;
    assert(r == x / 4) by (bit_vector)
        requires
            r == x >> 2,
    ;
    r
}

/// Entry 1's address register value for the non-cacheable region
/// `[start, end)`: none when the region is empty.
pub open spec fn noncacheable_entry(start: u32, end: u32) -> Result<Option<u32>, PmaError> {
    if end <= start {
        Ok(None)
    } else if !is_napot_range(start, (end - start) as u32) {
        Err(PmaError::NotNaturallyAligned)
    } else {
        Ok(Some(napot_value(start as int, end - start) as u32))
    }
}

/// The window around the diagnostic block: its address rounded down to a
/// multiple of [`DIAG_WINDOW`].
pub open spec fn diag_window_base(diag_addr: u32) -> u32 {
    diag_addr & !0xFFFu32
}

/// Entry 0's address register value for the diagnostic block at
/// `diag_addr`; an address of 0 means the block is not linked in.
pub open spec fn diag_entry(diag_addr: u32) -> Option<u32> {
    if diag_addr == 0 {
        None
    } else {
        Some(napot_value(diag_window_base(diag_addr) as int, DIAG_WINDOW as int) as u32)
    }
}

/// The writes that program the memory attributes under `features`, for the
/// diagnostic block at `diag_addr` and the non-cacheable region
/// `[nc_start, nc_end)`.
///
/// With both options the configuration register is written once with both
/// entries; with one option it is written only when that entry is used.
pub open spec fn pma_program(features: Features, diag_addr: u32, nc_start: u32, nc_end: u32) -> Result<PmaProgram, PmaError> {
    if features.errata_fix && features.noncacheable_region {
        match noncacheable_entry(nc_start, nc_end) {
            Err(e) => Err(e),
            Ok(nc) => Ok(PmaProgram {
                addr0: diag_entry(diag_addr),
                addr1: nc,
                cfg0: Some(
                    (if diag_addr != 0 { ENTRY_NAPOT_NC_BUF } else { 0u32 }) | (if nc is Some {
                        ENTRY_NAPOT_NC_BUF_AMO << 8u32
                    } else {
                        0u32
                    }),
                ),
            }),
        }
    } else if features.errata_fix {
        Ok(
            match diag_entry(diag_addr) {
                Some(v) => PmaProgram { addr0: Some(v), addr1: None, cfg0: Some(ENTRY_NAPOT_NC_BUF) },
                None => no_writes(),
            },
        )
    } else if features.noncacheable_region {
        match noncacheable_entry(nc_start, nc_end) {
            Err(e) => Err(e),
            Ok(None) => Ok(no_writes()),
            Ok(Some(v)) => Ok(
                PmaProgram { addr0: None, addr1: Some(v), cfg0: Some(ENTRY_NAPOT_NC_BUF_AMO << 8u32) },
            ),
        }
    } else {
        Ok(no_writes())
    }
}

/// Computes entry 1's address register value for the non-cacheable region
/// `[start, end)`. An empty region needs no entry; a non-empty one must be a
/// naturally aligned power of two.
pub fn noncacheable_pma_entry(start: u32, end: u32) -> (r: Result<Option<u32>, PmaError>)
    ensures
        r == noncacheable_entry(start, end),
{
    if end <= start {
        return Ok(None);
    }
    let length: u32 = end - start;
    if !(length >= NAPOT_MIN && length & (length - 1) == 0 && start & (length - 1) == 0) {
        return Err(PmaError::NotNaturallyAligned);
    }
    Ok(Some(napot_encode(start, length)))
}

/// Computes entry 0's address register value for the diagnostic block at
/// `diag_addr`, or none when the block is absent (address 0).
pub fn diag_window_entry(diag_addr: u32) -> (r: Option<u32>)
    ensures
        r == diag_entry(diag_addr),
{
    if diag_addr == 0 {
        return None;
    }
    let base: u32 = diag_addr & !0xFFFu32;
    assert(base <= 0xFFFF_F000u32) by (bit_vector)
        requires
            base == diag_addr & !0xFFFu32,
    ;
    Some(napot_encode(base, DIAG_WINDOW))
}

/// Programs both entries in one configuration write, as chips that need
/// the errata fix and a non-cacheable region require.
pub fn configure_pma_combined(diag_addr: u32, nc_start: u32, nc_end: u32) -> (r: Result<PmaProgram, PmaError>)
    ensures
        r == pma_program(Features { errata_fix: true, noncacheable_region: true }, diag_addr, nc_start, nc_end),
{
    let nc = match noncacheable_pma_entry(nc_start, nc_end) {
        Err(e) => return Err(e),
        Ok(nc) => nc,
    };
    let mut cfg: u32 = 0;
    let addr0 = diag_window_entry(diag_addr);
    if diag_addr != 0 {
        cfg = cfg | ENTRY_NAPOT_NC_BUF;
    }
    if nc.is_some() {
        cfg = cfg | (ENTRY_NAPOT_NC_BUF_AMO << 8u32);
    }
    assert(0u32 | ENTRY_NAPOT_NC_BUF == ENTRY_NAPOT_NC_BUF) by (bit_vector);
    assert(0u32 | 0u32 == 0u32) by (bit_vector);
    assert(0u32 | (ENTRY_NAPOT_NC_BUF_AMO << 8u32) == ENTRY_NAPOT_NC_BUF_AMO << 8u32) by (bit_vector);
    assert(ENTRY_NAPOT_NC_BUF | 0u32 == ENTRY_NAPOT_NC_BUF) by (bit_vector);
    Ok(PmaProgram { addr0, addr1: nc, cfg0: Some(cfg) })
}

/// Makes the diagnostic block's window non-cacheable through entry 0, when
/// the block is linked in.
pub fn configure_diag_window(diag_addr: u32) -> (r: PmaProgram)
    ensures
        pma_program(Features { errata_fix: true, noncacheable_region: false }, diag_addr, 0, 0) == Ok::<PmaProgram, PmaError>(r),
{
    match diag_window_entry(diag_addr) {
        Some(v) => PmaProgram { addr0: Some(v), addr1: None, cfg0: Some(ENTRY_NAPOT_NC_BUF) },
        None => PmaProgram { addr0: None, addr1: None, cfg0: None },
    }
}

/// Makes the non-cacheable RAM region non-cacheable through entry 1, when
/// the region is not empty.
pub fn configure_noncacheable_pma(nc_start: u32, nc_end: u32) -> (r: Result<PmaProgram, PmaError>)
    ensures
        r == pma_program(Features { errata_fix: false, noncacheable_region: true }, 0, nc_start, nc_end),
{
    match noncacheable_pma_entry(nc_start, nc_end) {
        Err(e) => Err(e),
        Ok(None) => Ok(PmaProgram { addr0: None, addr1: None, cfg0: None }),
        Ok(Some(v)) => Ok(PmaProgram { addr0: None, addr1: Some(v), cfg0: Some(ENTRY_NAPOT_NC_BUF_AMO << 8u32) }),
    }
}

/// Computes the memory-attribute writes for `features`.
///
/// `diag_addr` is the address of the diagnostic block, 0 when it is not
/// linked in; `[nc_start, nc_end)` is the non-cacheable RAM region.
pub fn configure_pma(features: Features, diag_addr: u32, nc_start: u32, nc_end: u32) -> (r: Result<PmaProgram, PmaError>)
    ensures
        r == pma_program(features, diag_addr, nc_start, nc_end),
{
    if features.errata_fix && features.noncacheable_region {
        configure_pma_combined(diag_addr, nc_start, nc_end)
    } else if features.errata_fix {
        Ok(configure_diag_window(diag_addr))
    } else if features.noncacheable_region {
        configure_noncacheable_pma(nc_start, nc_end)
    } else {
        Ok(PmaProgram { addr0: None, addr1: None, cfg0: None })
    }
}

/// An empty non-cacheable region is never programmed: entry 1's address
/// register is not written and the configuration sets no bit of entry 1.
pub proof fn lemma_empty_region_not_programmed(features: Features, diag_addr: u32, nc_start: u32, nc_end: u32)
    requires
        nc_end <= nc_start,
    ensures
        pma_program(features, diag_addr, nc_start, nc_end) is Ok,
        pma_program(features, diag_addr, nc_start, nc_end)->Ok_0.addr1 is None,
        pma_program(features, diag_addr, nc_start, nc_end)->Ok_0.cfg0 is Some ==> pma_program(
            features,
            diag_addr,
            nc_start,
            nc_end,
        )->Ok_0.cfg0->0 & 0xFF00u32 == 0,
{
    assert((0u32 | 0u32) & 0xFF00u32 == 0) by (bit_vector);
    assert((ENTRY_NAPOT_NC_BUF | 0u32) & 0xFF00u32 == 0) by (bit_vector);
    assert(ENTRY_NAPOT_NC_BUF & 0xFF00u32 == 0) by (bit_vector);
}

/// With the errata fix on and the diagnostic block absent (address 0),
/// entry 0 is never programmed, while a non-empty, well-formed non-cacheable
/// region is still programmed through entry 1 when that option is on.
pub proof fn lemma_absent_diag_block(features: Features, nc_start: u32, nc_end: u32)
    requires
        features.errata_fix,
    ensures
        pma_program(features, 0, nc_start, nc_end) is Ok ==> {
            let p = pma_program(features, 0, nc_start, nc_end)->Ok_0;
            &&& p.addr0 is None
            &&& p.cfg0 is Some ==> p.cfg0->0 & 0xFFu32 == 0
        },
        features.noncacheable_region && noncacheable_entry(nc_start, nc_end) is Ok ==> {
            &&& pma_program(features, 0, nc_start, nc_end) is Ok
            &&& pma_program(features, 0, nc_start, nc_end)->Ok_0.addr1 == noncacheable_entry(
                nc_start,
                nc_end,
            )->Ok_0
        },
{
    assert((0u32 | 0u32) & 0xFFu32 == 0) by (bit_vector);
    assert((0u32 | (ENTRY_NAPOT_NC_BUF_AMO << 8u32)) & 0xFFu32 == 0) by (bit_vector);
}

} // verus!
