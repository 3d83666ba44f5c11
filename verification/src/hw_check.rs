//! Checks that the stage-2 page table depth the hypervisor was built for
//! matches what the processor's physical address range calls for.
use vstd::prelude::*;
use vstd::string::*;

use crate::text::{append_decimal, decimal};

verus! {

/// Encodings of ID_AA64MMFR0_EL1.PARange, the implemented physical address size.
#[derive(PartialEq, Eq, Structural, Clone, Copy, Debug)]
pub enum PaRange {
    Bits32,
    Bits36,
    Bits40,
    Bits42,
    Bits44,
    Bits48,
    Bits52,
}

/// Physical address width for a PARange reading; an unknown encoding
/// (`None`) counts as 32 bits.
pub open spec fn pa_bits_of(range: Option<PaRange>) -> u32 {
    match range {
        Some(PaRange::Bits32) => 32,
        Some(PaRange::Bits36) => 36,
        Some(PaRange::Bits40) => 40,
        Some(PaRange::Bits42) => 42,
        Some(PaRange::Bits44) => 44,
        Some(PaRange::Bits48) => 48,
        Some(PaRange::Bits52) => 52,
        None => 32,
    }
}

/// Page table levels needed to cover `pa_bits` of physical address: four
/// from 44 bits up, three below.
pub open spec fn levels_for(pa_bits: u32) -> u32 {
    if pa_bits >= 44 {
        4
    } else {
        3
    }
}

/// Why the hardware does not fit the configured page table depth.
#[derive(PartialEq, Eq, Structural, Clone, Copy, Debug)]
pub enum LevelMismatch {
    /// Four-level stage-2 tables are configured, but the hardware only needs
    /// (and supports) `levels`.
    FourLevelUnsupported { levels: u32 },
    /// The hardware calls for `levels` levels, but four-level tables are not
    /// configured.
    FourLevelNotEnabled { levels: u32 },
}

impl LevelMismatch {
    /// The text that describes the mismatch.
    pub open spec fn message_spec(self) -> Seq<char> {
        match self {
            LevelMismatch::FourLevelUnsupported { levels } => "4-level EPT feature is enabled, but the hardware only supports "@
                + decimal(levels as nat)
                + "-level page tables. Please disable the 4-level EPT feature or use hardware that supports 4-level page tables."@,
            LevelMismatch::FourLevelNotEnabled { levels } => "The hardware supports "@ + decimal(
                levels as nat,
            )
                + "-level page tables, but the 4-level EPT feature is not enabled. Please enable the 4-level EPT feature to utilize the hardware's full capabilities."@,
        }
    }

    /// The text that describes the mismatch.
    pub fn message(&self) -> (m: String)
        ensures
            m@ == self.message_spec(),
    {
        match self {
            LevelMismatch::FourLevelUnsupported { levels } => {
                let mut m = String::from_str(
                    "4-level EPT feature is enabled, but the hardware only supports ",
                );
                append_decimal(&mut m, *levels as u64);
                m.append(
                    "-level page tables. Please disable the 4-level EPT feature or use hardware that supports 4-level page tables.",
                );
                m
            },
            LevelMismatch::FourLevelNotEnabled { levels } => {
                let mut m = String::from_str("The hardware supports ");
                append_decimal(&mut m, *levels as u64);
                m.append(
                    "-level page tables, but the 4-level EPT feature is not enabled. Please enable the 4-level EPT feature to utilize the hardware's full capabilities.",
                );
                m
            },
        }
    }
}

/// The outcome of the check for a given depth and configuration.
pub open spec fn level_check_result(ept_level_4: bool, levels: u32) -> Result<(), LevelMismatch> {
    if ept_level_4 {
        if levels < 4 {
            Err(LevelMismatch::FourLevelUnsupported { levels })
        } else {
            Ok(())
        }
    } else {
        if levels > 3 {
            Err(LevelMismatch::FourLevelNotEnabled { levels })
        } else {
            Ok(())
        }
    }
}

/// Physical address width, in bits, for a PARange reading.
pub fn physical_address_bits(range: Option<PaRange>) -> (bits: u32)
    ensures
        bits == pa_bits_of(range),
{
    match range {
        Some(PaRange::Bits32) => 32,
        Some(PaRange::Bits36) => 36,
        Some(PaRange::Bits40) => 40,
        Some(PaRange::Bits42) => 42,
        Some(PaRange::Bits44) => 44,
        Some(PaRange::Bits48) => 48,
        Some(PaRange::Bits52) => 52,
        None => 32,
    }
}

/// Number of stage-2 page table levels for a physical address width.
pub fn page_table_levels(pa_bits: u32) -> (levels: u32)
    ensures
        levels == levels_for(pa_bits),
{
    if pa_bits >= 44 {
        4
    } else {
        3
    }
}

/// Compares the configured table depth (`ept_level_4`: four levels built in)
/// with the depth the hardware calls for.
pub fn check_page_table_levels(ept_level_4: bool, levels: u32) -> (r: Result<(), LevelMismatch>)
    ensures
        r == level_check_result(ept_level_4, levels),
{
    if ept_level_4 {
        if levels < 4 {
            return Err(LevelMismatch::FourLevelUnsupported { levels });
        }
    } else {
        if levels > 3 {
            return Err(LevelMismatch::FourLevelNotEnabled { levels });
        }
    }
    Ok(())
}

/// The hardware check: from the PARange reading and the build configuration
/// (`ept_level_4`: four-level stage-2 tables built in) to the number of page
/// table levels in use. A configuration that does not match the hardware is
/// fatal; the caller checks it first with `check_page_table_levels`, whose
/// error describes the mismatch.
pub fn hardware_check(range: Option<PaRange>, ept_level_4: bool) -> (levels: u32)
    requires
        level_check_result(ept_level_4, levels_for(pa_bits_of(range))) is Ok,
    ensures
        levels == levels_for(pa_bits_of(range)),
        ept_level_4 <==> levels == 4,
{
    let pa_bits = physical_address_bits(range);
    page_table_levels(pa_bits)
}

/// Hardware always calls for three or four levels.
pub proof fn lemma_levels_three_or_four(range: Option<PaRange>)
    ensures
        levels_for(pa_bits_of(range)) == 3 || levels_for(pa_bits_of(range)) == 4,
        levels_for(pa_bits_of(range)) == 4 <==> (range == Some(PaRange::Bits44) || range
            == Some(PaRange::Bits48) || range == Some(PaRange::Bits52)),
{
}

/// The check passes exactly when four-level tables are configured if and
/// only if the physical address range is 44 bits or wider.
pub proof fn lemma_check_passes_iff_depth_matches(range: Option<PaRange>, ept_level_4: bool)
    ensures
        level_check_result(ept_level_4, levels_for(pa_bits_of(range))) is Ok <==> (ept_level_4
            == (pa_bits_of(range) >= 44)),
{
}

} // verus!
