use axvisor::hw_check::{
    check_page_table_levels, hardware_check, page_table_levels, physical_address_bits,
    LevelMismatch, PaRange,
};

#[test]
fn physical_address_bits_per_encoding() {
    assert_eq!(physical_address_bits(Some(PaRange::Bits32)), 32);
    assert_eq!(physical_address_bits(Some(PaRange::Bits36)), 36);
    assert_eq!(physical_address_bits(Some(PaRange::Bits40)), 40);
    assert_eq!(physical_address_bits(Some(PaRange::Bits42)), 42);
    assert_eq!(physical_address_bits(Some(PaRange::Bits44)), 44);
    assert_eq!(physical_address_bits(Some(PaRange::Bits48)), 48);
    assert_eq!(physical_address_bits(Some(PaRange::Bits52)), 52);
    assert_eq!(physical_address_bits(None), 32);
}

#[test]
fn levels_switch_at_44_bits() {
    assert_eq!(page_table_levels(32), 3);
    assert_eq!(page_table_levels(42), 3);
    assert_eq!(page_table_levels(43), 3);
    assert_eq!(page_table_levels(44), 4);
    assert_eq!(page_table_levels(52), 4);
}

#[test]
fn check_levels_each_outcome() {
    assert_eq!(check_page_table_levels(false, 3), Ok(()));
    assert_eq!(check_page_table_levels(true, 4), Ok(()));
    assert_eq!(
        check_page_table_levels(true, 3),
        Err(LevelMismatch::FourLevelUnsupported { levels: 3 })
    );
    assert_eq!(
        check_page_table_levels(false, 4),
        Err(LevelMismatch::FourLevelNotEnabled { levels: 4 })
    );
}

#[test]
fn hardware_check_gives_levels_when_depth_matches() {
    let ranges = [
        None,
        Some(PaRange::Bits32),
        Some(PaRange::Bits36),
        Some(PaRange::Bits40),
        Some(PaRange::Bits42),
        Some(PaRange::Bits44),
        Some(PaRange::Bits48),
        Some(PaRange::Bits52),
    ];
    for range in ranges {
        let levels = page_table_levels(physical_address_bits(range));
        for ept4 in [false, true] {
            let ok = check_page_table_levels(ept4, levels).is_ok();
            assert_eq!(ok, ept4 == (physical_address_bits(range) >= 44));
            if ok {
                assert_eq!(hardware_check(range, ept4), levels);
            }
        }
    }
    assert_eq!(hardware_check(Some(PaRange::Bits40), false), 3);
    assert_eq!(hardware_check(Some(PaRange::Bits52), true), 4);
}

#[test]
fn mismatches_are_reported_before_the_check() {
    let levels = page_table_levels(physical_address_bits(Some(PaRange::Bits48)));
    assert_eq!(
        check_page_table_levels(false, levels),
        Err(LevelMismatch::FourLevelNotEnabled { levels: 4 })
    );
    let levels = page_table_levels(physical_address_bits(None));
    assert_eq!(
        check_page_table_levels(true, levels),
        Err(LevelMismatch::FourLevelUnsupported { levels: 3 })
    );
}

#[test]
fn level_mismatch_messages() {
    assert_eq!(
        LevelMismatch::FourLevelUnsupported { levels: 3 }.message(),
        "4-level EPT feature is enabled, but the hardware only supports 3-level page tables. Please disable the 4-level EPT feature or use hardware that supports 4-level page tables."
    );
    assert_eq!(
        LevelMismatch::FourLevelNotEnabled { levels: 4 }.message(),
        "The hardware supports 4-level page tables, but the 4-level EPT feature is not enabled. Please enable the 4-level EPT feature to utilize the hardware's full capabilities."
    );
    assert_eq!(
        LevelMismatch::FourLevelNotEnabled { levels: 1234567890 }.message(),
        "The hardware supports 1234567890-level page tables, but the 4-level EPT feature is not enabled. Please enable the 4-level EPT feature to utilize the hardware's full capabilities."
    );
}
