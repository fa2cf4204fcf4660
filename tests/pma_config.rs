use hpm_riscv_rt::config::Features;
use hpm_riscv_rt::pma::{
    configure_diag_window, configure_noncacheable_pma, configure_pma, configure_pma_combined,
    diag_window_entry, napot_encode, noncacheable_pma_entry, PmaError, PmaProgram,
};

const BOTH: Features = Features { errata_fix: true, noncacheable_region: true };
const ERRATA: Features = Features { errata_fix: true, noncacheable_region: false };
const NONCACHEABLE: Features = Features { errata_fix: false, noncacheable_region: true };
const NONE: Features = Features { errata_fix: false, noncacheable_region: false };

#[test]
fn napot_encoding_of_four_kib_at_four_kib() {
    assert_eq!(napot_encode(0x1000, 0x1000), (0x1000 + 0x800 - 1) >> 2);
    assert_eq!(napot_encode(0x1000, 0x1000), 0x5FF);
    assert_eq!(napot_encode(0x0108_0000, 0x8_0000), 0x0042_FFFF);
}

#[test]
fn empty_noncacheable_range_is_not_programmed() {
    assert_eq!(noncacheable_pma_entry(0, 0), Ok(None));
    assert_eq!(noncacheable_pma_entry(0x2000, 0x1000), Ok(None));
    assert_eq!(
        configure_noncacheable_pma(0, 0),
        Ok(PmaProgram { addr0: None, addr1: None, cfg0: None })
    );
    assert_eq!(
        configure_pma(BOTH, 0, 0, 0),
        Ok(PmaProgram { addr0: None, addr1: None, cfg0: Some(0) })
    );
}

#[test]
fn absent_diag_block_leaves_entry_zero_alone() {
    let r = configure_pma(BOTH, 0, 0x0108_0000, 0x0110_0000);
    assert_eq!(
        r,
        Ok(PmaProgram { addr0: None, addr1: Some(0x0042_FFFF), cfg0: Some(0x2F00) })
    );
    assert_eq!(configure_pma(ERRATA, 0, 0x0108_0000, 0x0110_0000), Ok(PmaProgram { addr0: None, addr1: None, cfg0: None }));
    assert_eq!(configure_diag_window(0), PmaProgram { addr0: None, addr1: None, cfg0: None });
}

#[test]
fn diag_block_window_is_rounded_down() {
    assert_eq!(diag_window_entry(0x0008_0123), Some((0x0008_0000 + 0x800 - 1) >> 2));
    assert_eq!(diag_window_entry(0), None);
    assert_eq!(
        configure_pma(ERRATA, 0x0008_0123, 0, 0),
        Ok(PmaProgram { addr0: Some(0x0002_01FF), addr1: None, cfg0: Some(0x0F) })
    );
    assert_eq!(diag_window_entry(0xFFFF_FFFF), Some((0xFFFF_F000u32 + 0x7FF) >> 2));
}

#[test]
fn both_entries_in_one_configuration_write() {
    assert_eq!(
        configure_pma_combined(0x0008_0123, 0x0108_0000, 0x0110_0000),
        Ok(PmaProgram { addr0: Some(0x0002_01FF), addr1: Some(0x0042_FFFF), cfg0: Some(0x2F0F) })
    );
    assert_eq!(
        configure_pma_combined(0x0008_0123, 0, 0),
        Ok(PmaProgram { addr0: Some(0x0002_01FF), addr1: None, cfg0: Some(0x0F) })
    );
}

#[test]
fn noncacheable_region_only() {
    assert_eq!(
        configure_pma(NONCACHEABLE, 0x0008_0123, 0x1000, 0x2000),
        Ok(PmaProgram { addr0: None, addr1: Some(0x5FF), cfg0: Some(0x2F00) })
    );
    assert_eq!(configure_pma(NONE, 0x0008_0123, 0x1000, 0x2000), Ok(PmaProgram { addr0: None, addr1: None, cfg0: None }));
}

#[test]
fn malformed_noncacheable_region_is_refused() {
    // Not aligned to its size.
    assert_eq!(noncacheable_pma_entry(0x1800, 0x2800), Err(PmaError::NotNaturallyAligned));
    // Not a power of two.
    assert_eq!(noncacheable_pma_entry(0x1000, 0x1C00), Err(PmaError::NotNaturallyAligned));
    // Too small.
    assert_eq!(noncacheable_pma_entry(0x1000, 0x1004), Err(PmaError::NotNaturallyAligned));
    assert_eq!(configure_pma(BOTH, 0, 0x1800, 0x2800), Err(PmaError::NotNaturallyAligned));
    assert_eq!(configure_noncacheable_pma(0x1800, 0x2800), Err(PmaError::NotNaturallyAligned));
    assert_eq!(noncacheable_pma_entry(0x1000, 0x1008), Ok(Some((0x1000 + 4 - 1) >> 2)));
}
