//! Safe, verified building blocks around the asar SNES assembler engine.
mod gate;
mod lock;
mod marshal;
mod options;
mod outcome;
mod types;

pub use lock::{with_asar_lock, EngineLock};
pub use types::{
    label_value_from_raw, ConcurrentApplyError, Define, ErrorData, Label, MapperType, PatchResult,
    RomData, SymbolType, WarningData, WrittenBlock,
};
pub use options::{
    default_options, with_option, with_options, AdvancedPatchOptions, BasicPatchOptions,
    MemoryContents, MemoryFile, MemoryFileData, OptionsView, PatchOption, WarnSetting,
};
pub use marshal::{
    contents_len, is_nul_free, nul_free, options_nul_free, sizes_fit, MarshalError, PatchParams,
    C_INT_MAX,
};
pub use outcome::{
    conclude_patch, concluded, lemma_failure_carries_errors, lemma_success_within_buffer,
    patch_succeeded, settle_rom, settled,
};
pub use gate::{
    apply_granted, held_after_apply, held_after_release, lemma_release_reopens,
    lemma_second_apply_refused, resolved_options, ApplyGate, ApplyPermit, Patcher,
};
