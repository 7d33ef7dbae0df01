//! Reading the engine's verdict on a patch.
use vstd::prelude::*;

use crate::types::{ErrorData, PatchResult, RomData, WarningData};

verus! {

/// The engine's report counts as a success: it says so, and the new length it gives lies
/// within the buffer that it was handed.
pub open spec fn patch_succeeded(rom: RomData, ok: bool, reported: i32) -> bool {
    ok && 0 <= reported && reported <= rom.data.len()
}

/// The ROM after the engine's report: on success the buffer with the reported length, on
/// failure the ROM as it was handed over.
pub open spec fn settled(rom: RomData, ok: bool, reported: i32) -> RomData {
    if patch_succeeded(rom, ok, reported) {
        RomData { data: rom.data, length: reported as usize }
    } else {
        rom
    }
}

/// What a patch returns, from the engine's report and the diagnostics it holds.
pub open spec fn concluded(
    rom: RomData,
    ok: bool,
    reported: i32,
    warnings: Vec<WarningData>,
    errors: Vec<ErrorData>,
) -> PatchResult {
    if patch_succeeded(rom, ok, reported) {
        PatchResult::Success(settled(rom, ok, reported), warnings)
    } else {
        PatchResult::Failure(errors)
    }
}

/// Takes the engine's report on the ROM (its verdict and the new length), and gives back the
/// ROM and whether the patch succeeded. A length past the buffer counts as a failure.
pub fn settle_rom(rom: RomData, ok: bool, reported: i32) -> (r: (RomData, bool))
    ensures
        r.0 == settled(rom, ok, reported),
        r.1 == patch_succeeded(rom, ok, reported),
{
    let succeeded = ok && 0 <= reported && reported as usize <= rom.data.len();
    if succeeded {
        (RomData { data: rom.data, length: reported as usize }, true)
    } else {
        (rom, false)
    }
}

/// The result of a patch, from the engine's report on the ROM, its warnings and its errors.
pub fn conclude_patch(
    rom: RomData,
    ok: bool,
    reported: i32,
    warnings: Vec<WarningData>,
    errors: Vec<ErrorData>,
) -> (r: PatchResult)
    ensures
        r == concluded(rom, ok, reported, warnings, errors),
{
    let (rom, succeeded) = settle_rom(rom, ok, reported);
    if succeeded {
        PatchResult::Success(rom, warnings)
    } else {
        PatchResult::Failure(errors)
    }
}

/// A successful patch never reports a ROM longer than the buffer it was handed, and keeps
/// that buffer.
pub proof fn lemma_success_within_buffer(
    rom: RomData,
    ok: bool,
    reported: i32,
    warnings: Vec<WarningData>,
    errors: Vec<ErrorData>,
)
    ensures
        concluded(rom, ok, reported, warnings, errors) matches PatchResult::Success(d, _) ==> {
            &&& d.length <= rom.data.len()
            &&& d.data == rom.data
            &&& d.wf()
        },
{
}

/// A failed patch hands on every error that the engine reported; so when the engine gives
/// at least one error with a message, so does the failure.
pub proof fn lemma_failure_carries_errors(
    rom: RomData,
    ok: bool,
    reported: i32,
    warnings: Vec<WarningData>,
    errors: Vec<ErrorData>,
)
    requires
        exists|i: int| 0 <= i < errors@.len() && errors@[i].fullerrdata@.len() > 0,
    ensures
        concluded(rom, ok, reported, warnings, errors) matches PatchResult::Failure(e) ==> {
            &&& e == errors
            &&& exists|i: int| 0 <= i < e@.len() && e@[i].fullerrdata@.len() > 0
        },
{
}

} // verus!
