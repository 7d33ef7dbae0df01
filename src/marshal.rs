//! Laying a patch out as the engine's parameter block.
use vstd::prelude::*;
use vstd::utf8::encode_utf8;

use crate::options::{
    defines_of, files_of, texts_of, warnings_of, MemoryContents, MemoryFile, MemoryFileData,
    OptionsView, WarnSetting,
};
use crate::types::{Define, RomData};

verus! {

/// The largest count or length that the engine's signed 32-bit fields hold.
pub const C_INT_MAX: usize = 0x7fff_ffff;

/// A string can cross to the engine as a C string: its UTF-8 bytes hold no zero.
pub open spec fn nul_free(s: Seq<char>) -> bool {
    !encode_utf8(s).contains(0u8)
}

/// Whether a string can cross to the engine as a C string.
pub fn is_nul_free(s: &str) -> (r: bool)
    ensures
        r == nul_free(s@),
{
    let bytes = s.as_bytes();
    let mut i: usize = 0;
    while i < bytes.len()
        invariant
            i <= bytes@.len(),
            bytes@ == encode_utf8(s@),
            forall|j: int| 0 <= j < i ==> bytes@[j] != 0u8,
        decreases bytes@.len() - i,
    {
        if bytes[i] == 0u8 {
            assert(encode_utf8(s@)[i as int] == 0u8);
            return false;
        }
        i = i + 1;
    }
    true
}

pub open spec fn texts_nul_free(s: Seq<Seq<char>>) -> bool {
    forall|i: int| 0 <= i < s.len() ==> nul_free(#[trigger] s[i])
}

pub open spec fn define_nul_free(d: (Seq<char>, Seq<char>)) -> bool {
    nul_free(d.0) && nul_free(d.1)
}

pub open spec fn opt_nul_free(s: Option<Seq<char>>) -> bool {
    match s {
        Some(t) => nul_free(t),
        None => true,
    }
}

/// Every string of the settings that crosses as a C string holds no zero byte.
pub open spec fn options_nul_free(o: OptionsView) -> bool {
    &&& texts_nul_free(o.includepaths)
    &&& forall|i: int|
        0 <= i < o.additional_defines.len() ==> define_nul_free(#[trigger] o.additional_defines[i])
    &&& opt_nul_free(o.stdincludesfile)
    &&& opt_nul_free(o.stddefinesfile)
    &&& forall|i: int|
        0 <= i < o.warning_settings.len() ==> nul_free(#[trigger] o.warning_settings[i].0)
    &&& forall|i: int| 0 <= i < o.memory_files.len() ==> nul_free(#[trigger] o.memory_files[i].0)
}

/// Every length and count that crosses as a signed 32-bit integer fits one.
pub open spec fn sizes_fit(rom: RomData, o: OptionsView) -> bool {
    &&& rom.data.len() <= C_INT_MAX
    &&& rom.length <= C_INT_MAX
    &&& o.includepaths.len() <= C_INT_MAX
    &&& o.additional_defines.len() <= C_INT_MAX
    &&& o.warning_settings.len() <= C_INT_MAX
    &&& o.memory_files.len() <= C_INT_MAX
}

/// Why a patch could not be handed to the engine.
#[derive(Debug, Clone, Copy, PartialEq, Eq, Structural)]
pub enum MarshalError {
    /// A length or a count does not fit the engine's 32-bit fields.
    TooLarge,
    /// A string holds a zero byte, which a C string cannot carry.
    InteriorNul,
}

/// The number of bytes that a file held in memory hands to the engine.
pub open spec fn contents_len(c: MemoryContents) -> nat {
    match c {
        MemoryContents::Binary(d) => d.len(),
        MemoryContents::Text(t) => encode_utf8(t).len(),
    }
}

impl MemoryFileData {
    /// The number of bytes handed to the engine.
    pub fn byte_len(&self) -> (r: usize)
        ensures
            r == contents_len(self@),
    {
        match self {
            MemoryFileData::Binary(d) => {
d.len()
            },
            MemoryFileData::Text(t) => t.as_str().as_bytes().len(),
        }
    }
}

/// The engine's parameter block, as plain values: every string in it is known to be free
/// of zero bytes and every count to fit a signed 32-bit integer.
pub struct PatchParams {
    pub rom: RomData,
    pub buflen: i32,
    pub romlen: i32,
    pub patchloc: String,
    pub includepaths: Vec<String>,
    pub numincludepaths: i32,
    pub should_reset: bool,
    pub additional_defines: Vec<Define>,
    pub additional_define_count: i32,
    pub stdincludesfile: Option<String>,
    pub stddefinesfile: Option<String>,
    pub warning_settings: Vec<WarnSetting>,
    pub warning_setting_count: i32,
    pub memory_files: Vec<MemoryFile>,
    pub memory_file_count: i32,
    pub override_checksum_gen: bool,
    pub generate_checksum: bool,
}

impl PatchParams {
    /// The settings that the block carries.
    pub open spec fn settings(&self) -> OptionsView {
        OptionsView {
            includepaths: texts_of(self.includepaths@),
            should_reset: self.should_reset,
            additional_defines: defines_of(self.additional_defines@),
            stdincludesfile: crate::options::opt_view(self.stdincludesfile),
            stddefinesfile: crate::options::opt_view(self.stddefinesfile),
            warning_settings: warnings_of(self.warning_settings@),
            memory_files: files_of(self.memory_files@),
            override_checksum_gen: self.override_checksum_gen,
            generate_checksum: self.generate_checksum,
        }
    }

    /// The counts agree with the lists, the lengths with the ROM.
    pub open spec fn wf(&self) -> bool {
        &&& self.buflen as int == self.rom.data.len()
        &&& self.romlen as int == self.rom.length
        &&& self.numincludepaths as int == self.includepaths.len()
        &&& self.additional_define_count as int == self.additional_defines.len()
        &&& self.warning_setting_count as int == self.warning_settings.len()
        &&& self.memory_file_count as int == self.memory_files.len()
        &&& nul_free(self.patchloc@)
        &&& options_nul_free(self.settings())
    }
}

/// Whether no string of the list holds a zero byte.
pub(crate) fn texts_checked(v: &Vec<String>) -> (r: bool)
    ensures
        r == texts_nul_free(texts_of(v@)),
{
    let ghost m = texts_of(v@);
    let mut i: usize = 0;
    while i < v.len()
        invariant
            i <= v@.len(),
            m == texts_of(v@),
            forall|j: int| 0 <= j < i ==> nul_free(#[trigger] m[j]),
        decreases v@.len() - i,
    {
        if !is_nul_free(v[i].as_str()) {
            assert(!nul_free(m[i as int]));
            return false;
        }
        i = i + 1;
    }
    true
}

/// Whether no name or contents of the defines holds a zero byte.
pub(crate) fn defines_checked(v: &Vec<Define>) -> (r: bool)
    ensures
        r == (forall|i: int| 0 <= i < v@.len() ==> define_nul_free(#[trigger] defines_of(v@)[i])),
{
    let ghost m = defines_of(v@);
    let mut i: usize = 0;
    while i < v.len()
        invariant
            i <= v@.len(),
            m == defines_of(v@),
            forall|j: int| 0 <= j < i ==> define_nul_free(#[trigger] m[j]),
        decreases v@.len() - i,
    {
        if !is_nul_free(v[i].name.as_str()) || !is_nul_free(v[i].contents.as_str()) {
            assert(!define_nul_free(m[i as int]));
            return false;
        }
        i = i + 1;
    }
    true
}

/// Whether no warning name holds a zero byte.
pub(crate) fn warnings_checked(v: &Vec<WarnSetting>) -> (r: bool)
    ensures
        r == (forall|i: int|
            0 <= i < v@.len() ==> nul_free(#[trigger] warnings_of(v@)[i].0)),
{
    let ghost m = warnings_of(v@);
    let mut i: usize = 0;
    while i < v.len()
        invariant
            i <= v@.len(),
            m == warnings_of(v@),
            forall|j: int| 0 <= j < i ==> nul_free(#[trigger] m[j].0),
        decreases v@.len() - i,
    {
        if !is_nul_free(v[i].warnid.as_str()) {
            assert(!nul_free(m[i as int].0));
            return false;
        }
        i = i + 1;
    }
    true
}

/// Whether no file name holds a zero byte.
pub(crate) fn files_checked(v: &Vec<MemoryFile>) -> (r: bool)
    ensures
        r == (forall|i: int|
            0 <= i < v@.len() ==> nul_free(#[trigger] files_of(v@)[i].0)),
{
    let ghost m = files_of(v@);
    let mut i: usize = 0;
    while i < v.len()
        invariant
            i <= v@.len(),
            m == files_of(v@),
            forall|j: int| 0 <= j < i ==> nul_free(#[trigger] m[j].0),
        decreases v@.len() - i,
    {
        if !is_nul_free(v[i].filename.as_str()) {
            assert(!nul_free(m[i as int].0));
            return false;
        }
        i = i + 1;
    }
    true
}

/// Whether the string, if any, holds no zero byte.
pub(crate) fn opt_checked(s: &Option<String>) -> (r: bool)
    ensures
        r == opt_nul_free(crate::options::opt_view(*s)),
{
    match s {
        Some(t) => is_nul_free(t.as_str()),
        None => true,
    }
}

} // verus!
