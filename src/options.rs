//! The settings of a patch and the builders that collect them.
use vstd::prelude::*;

use crate::marshal::{
    defines_checked, files_checked, is_nul_free, nul_free, opt_checked, options_nul_free,
    sizes_fit, texts_checked, warnings_checked, MarshalError, PatchParams, C_INT_MAX,
};
use crate::types::{Define, RomData};

verus! {

/// A warning switched on or off by its name.
#[derive(Debug, Clone)]
pub struct WarnSetting {
    pub warnid: String,
    pub enabled: bool,
}

impl View for WarnSetting {
    type V = (Seq<char>, bool);

    open spec fn view(&self) -> (Seq<char>, bool) {
        (self.warnid@, self.enabled)
    }
}

/// The contents of a file held in memory.
#[derive(Debug, Clone)]
pub enum MemoryFileData {
    Binary(Vec<u8>),
    Text(String),
}

/// What a file held in memory contains, as a value.
pub enum MemoryContents {
    Binary(Seq<u8>),
    Text(Seq<char>),
}

impl View for MemoryFileData {
    type V = MemoryContents;

    open spec fn view(&self) -> MemoryContents {
        match self {
            MemoryFileData::Binary(d) => MemoryContents::Binary(d@),
            MemoryFileData::Text(t) => MemoryContents::Text(t@),
        }
    }
}

impl From<Vec<u8>> for MemoryFileData {
    fn from(data: Vec<u8>) -> (r: MemoryFileData) {
        MemoryFileData::Binary(data)
    }
}

impl vstd::std_specs::convert::FromSpecImpl<Vec<u8>> for MemoryFileData {
    open spec fn obeys_from_spec() -> bool {
        true
    }

    open spec fn from_spec(v: Vec<u8>) -> MemoryFileData {
        MemoryFileData::Binary(v)
    }
}

impl From<String> for MemoryFileData {
    fn from(data: String) -> (r: MemoryFileData) {
        MemoryFileData::Text(data)
    }
}

impl vstd::std_specs::convert::FromSpecImpl<String> for MemoryFileData {
    open spec fn obeys_from_spec() -> bool {
        true
    }

    open spec fn from_spec(v: String) -> MemoryFileData {
        MemoryFileData::Text(v)
    }
}

impl<'a> From<&'a str> for MemoryFileData {
    fn from(data: &'a str) -> (r: MemoryFileData)
        ensures
            r@ == MemoryContents::Text(data@),
    {
        MemoryFileData::Text(data.to_owned())
    }
}

impl<'a> vstd::std_specs::convert::FromSpecImpl<&'a str> for MemoryFileData {
    open spec fn obeys_from_spec() -> bool {
        false
    }

    open spec fn from_spec(v: &'a str) -> MemoryFileData {
        arbitrary()
    }
}

/// A file that the engine reads from memory instead of from disk.
#[derive(Debug, Clone)]
pub struct MemoryFile {
    pub filename: String,
    pub data: MemoryFileData,
}

impl View for MemoryFile {
    type V = (Seq<char>, MemoryContents);

    open spec fn view(&self) -> (Seq<char>, MemoryContents) {
        (self.filename@, self.data@)
    }
}

/// The options of a plain patch: the ROM and the path of the patch source.
#[derive(Debug, Clone)]
pub struct BasicPatchOptions {
    romdata: RomData,
    patchloc: String,
}

impl BasicPatchOptions {
    pub closed spec fn spec_romdata(&self) -> RomData {
        self.romdata
    }

    pub closed spec fn spec_patchloc(&self) -> Seq<char> {
        self.patchloc@
    }

    pub fn new(romdata: RomData, patchloc: String) -> (r: BasicPatchOptions)
        ensures
            r.spec_romdata() == romdata,
            r.spec_patchloc() == patchloc@,
    {
        BasicPatchOptions { romdata, patchloc }
    }

    /// Hands back the ROM and the patch path.
    pub fn into_parts(self) -> (r: (RomData, String))
        ensures
            r.0 == self.spec_romdata(),
            r.1@ == self.spec_patchloc(),
    {
        (self.romdata, self.patchloc)
    }
}

/// One setting of a patch.
#[derive(Debug, Clone)]
pub enum PatchOption {
    /// A directory searched for sources.
    Include(String),
    /// A define, by name and contents.
    Define(String, String),
    /// A warning, by name, switched on or off.
    Warning(String, bool),
    /// A file held in memory, by name and contents.
    MemoryFile(String, MemoryFileData),
    /// The file that lists the standard search directories.
    StdIncludesFile(String),
    /// The file that lists the standard defines.
    StdDefinesFile(String),
    /// Whether the checksum setting below overrides the engine's choice.
    OverrideChecksumGen(bool),
    /// Whether a checksum is written.
    GenerateChecksum(bool),
    /// Whether the engine forgets the last patch first.
    ShouldReset(bool),
}

/// The settings of a patch, as values.
pub struct OptionsView {
    pub includepaths: Seq<Seq<char>>,
    pub should_reset: bool,
    pub additional_defines: Seq<(Seq<char>, Seq<char>)>,
    pub stdincludesfile: Option<Seq<char>>,
    pub stddefinesfile: Option<Seq<char>>,
    pub warning_settings: Seq<(Seq<char>, bool)>,
    pub memory_files: Seq<(Seq<char>, MemoryContents)>,
    pub override_checksum_gen: bool,
    pub generate_checksum: bool,
}

/// The settings with which every patch starts: a reset first, nothing else.
pub open spec fn default_options() -> OptionsView {
    OptionsView {
        includepaths: Seq::empty(),
        should_reset: true,
        additional_defines: Seq::empty(),
        stdincludesfile: None,
        stddefinesfile: None,
        warning_settings: Seq::empty(),
        memory_files: Seq::empty(),
        override_checksum_gen: false,
        generate_checksum: false,
    }
}

/// The settings after one more option: lists grow at their end, single values are
/// replaced.
pub open spec fn with_option(v: OptionsView, o: PatchOption) -> OptionsView {
    match o {
        PatchOption::Include(p) => OptionsView { includepaths: v.includepaths.push(p@), ..v },
        PatchOption::Define(n, c) => OptionsView {
            additional_defines: v.additional_defines.push((n@, c@)),
            ..v
        },
        PatchOption::Warning(w, e) => OptionsView {
            warning_settings: v.warning_settings.push((w@, e)),
            ..v
        },
        PatchOption::MemoryFile(f, d) => OptionsView {
            memory_files: v.memory_files.push((f@, d@)),
            ..v
        },
        PatchOption::StdIncludesFile(f) => OptionsView { stdincludesfile: Some(f@), ..v },
        PatchOption::StdDefinesFile(f) => OptionsView { stddefinesfile: Some(f@), ..v },
        PatchOption::OverrideChecksumGen(b) => OptionsView { override_checksum_gen: b, ..v },
        PatchOption::GenerateChecksum(b) => OptionsView { generate_checksum: b, ..v },
        PatchOption::ShouldReset(b) => OptionsView { should_reset: b, ..v },
    }
}

/// The settings after a list of options, taken from first to last.
pub open spec fn with_options(v: OptionsView, os: Seq<PatchOption>) -> OptionsView
    decreases os.len(),
{
    if os.len() == 0 {
        v
    } else {
        with_options(with_option(v, os[0]), os.drop_first())
    }
}

/// The settings of a patch beyond the ROM and the patch path.
#[derive(Debug, Clone)]
pub struct AdvancedPatchOptions {
    includepaths: Vec<String>,
    should_reset: bool,
    additional_defines: Vec<Define>,
    stdincludesfile: Option<String>,
    stddefinesfile: Option<String>,
    warning_settings: Vec<WarnSetting>,
    memory_files: Vec<MemoryFile>,
    override_checksum_gen: bool,
    generate_checksum: bool,
}

pub open spec fn texts_of(v: Seq<String>) -> Seq<Seq<char>> {
    v.map_values(|s: String| s@)
}

pub open spec fn defines_of(v: Seq<Define>) -> Seq<(Seq<char>, Seq<char>)> {
    v.map_values(|d: Define| d@)
}

pub open spec fn warnings_of(v: Seq<WarnSetting>) -> Seq<(Seq<char>, bool)> {
    v.map_values(|w: WarnSetting| w@)
}

pub open spec fn files_of(v: Seq<MemoryFile>) -> Seq<(Seq<char>, MemoryContents)> {
    v.map_values(|m: MemoryFile| m@)
}

pub open spec fn opt_view(s: Option<String>) -> Option<Seq<char>> {
    match s {
        Some(t) => Some(t@),
        None => None,
    }
}

impl View for AdvancedPatchOptions {
    type V = OptionsView;

    closed spec fn view(&self) -> OptionsView {
        OptionsView {
            includepaths: texts_of(self.includepaths@),
            should_reset: self.should_reset,
            additional_defines: defines_of(self.additional_defines@),
            stdincludesfile: opt_view(self.stdincludesfile),
            stddefinesfile: opt_view(self.stddefinesfile),
            warning_settings: warnings_of(self.warning_settings@),
            memory_files: files_of(self.memory_files@),
            override_checksum_gen: self.override_checksum_gen,
            generate_checksum: self.generate_checksum,
        }
    }
}

impl AdvancedPatchOptions {
    /// Options with every setting at its default.
    pub fn new() -> (r: AdvancedPatchOptions)
        ensures
            r@ == default_options(),
    {
        let r = AdvancedPatchOptions {
            includepaths: Vec::new(),
            should_reset: true,
            additional_defines: Vec::new(),
            stdincludesfile: None,
            stddefinesfile: None,
            warning_settings: Vec::new(),
            memory_files: Vec::new(),
            override_checksum_gen: false,
            generate_checksum: false,
        };
        assert(r@.includepaths =~= Seq::empty());
        assert(r@.additional_defines =~= Seq::empty());
        assert(r@.warning_settings =~= Seq::empty());
        assert(r@.memory_files =~= Seq::empty());
        r
    }

    /// The default options with the given options added in order.
    pub fn from(options: Vec<PatchOption>) -> (r: AdvancedPatchOptions)
        ensures
            r@ == with_options(default_options(), options@),
    {
        AdvancedPatchOptions::new().options(options)
    }

    /// Adds one option.
    pub fn option(self, option: PatchOption) -> (r: AdvancedPatchOptions)
        ensures
            r@ == with_option(self@, option),
    {
        let ghost before = self@;
        let mut o = self;
        match option {
            PatchOption::Include(path) => {
                let ghost p = path@;
                o.includepaths.push(path);
                assert(o@.includepaths =~= before.includepaths.push(p));
            },
            PatchOption::Define(name, contents) => {
                let ghost d = (name@, contents@);
                o.additional_defines.push(Define { name, contents });
                assert(o@.additional_defines =~= before.additional_defines.push(d));
            },
            PatchOption::Warning(warnid, enabled) => {
                let ghost w = (warnid@, enabled);
                o.warning_settings.push(WarnSetting { warnid, enabled });
                assert(o@.warning_settings =~= before.warning_settings.push(w));
            },
            PatchOption::MemoryFile(filename, data) => {
                let ghost m = (filename@, data@);
                o.memory_files.push(MemoryFile { filename, data });
                assert(o@.memory_files =~= before.memory_files.push(m));
            },
            PatchOption::StdIncludesFile(filename) => o.stdincludesfile = Some(filename),
            PatchOption::StdDefinesFile(filename) => o.stddefinesfile = Some(filename),
            PatchOption::OverrideChecksumGen(b) => o.override_checksum_gen = b,
            PatchOption::GenerateChecksum(b) => o.generate_checksum = b,
            PatchOption::ShouldReset(b) => o.should_reset = b,
        }
        o
    }

    /// Adds the options in order.
    pub fn options(self, options: Vec<PatchOption>) -> (r: AdvancedPatchOptions)
        ensures
            r@ == with_options(self@, options@),
    {
        let ghost target = with_options(self@, options@);
        let mut o = self;
        let mut rest = options;
        while rest.len() > 0
            invariant
                with_options(o@, rest@) == target,
            decreases rest.len(),
        {
            let ghost before = rest@;
            let option = rest.remove(0);
            assert(rest@ =~= before.drop_first());
            o = o.option(option);
        }
        o
    }
}

impl AdvancedPatchOptions {
    /// Lays the patch out as the engine's parameter block. It fails with `TooLarge` when a
    /// length or count does not fit 32 bits, else with `InteriorNul` when a string that
    /// crosses as a C string holds a zero byte.
    pub fn into_params(self, rom: RomData, patchloc: String) -> (r: Result<
        PatchParams,
        MarshalError,
    >)
        ensures
            !sizes_fit(rom, self@) ==> r == Err::<PatchParams, MarshalError>(
                MarshalError::TooLarge,
            ),
            sizes_fit(rom, self@) && !(nul_free(patchloc@) && options_nul_free(self@)) ==> r
                == Err::<PatchParams, MarshalError>(MarshalError::InteriorNul),
            sizes_fit(rom, self@) && nul_free(patchloc@) && options_nul_free(self@) ==> {
                &&& r is Ok
                &&& r->Ok_0.wf()
                &&& r->Ok_0.rom == rom
                &&& r->Ok_0.patchloc@ == patchloc@
                &&& r->Ok_0.settings() == self@
            },
    {
        let ghost v = self@;
        if rom.data.len() > C_INT_MAX || rom.length > C_INT_MAX || self.includepaths.len()
            > C_INT_MAX || self.additional_defines.len() > C_INT_MAX || self.warning_settings.len()
            > C_INT_MAX || self.memory_files.len() > C_INT_MAX {
            return Err(MarshalError::TooLarge);
        }
        let ok_loc = is_nul_free(patchloc.as_str());
        let ok_paths = texts_checked(&self.includepaths);
        let ok_defines = defines_checked(&self.additional_defines);
        let ok_std = opt_checked(&self.stdincludesfile) && opt_checked(&self.stddefinesfile);
        let ok_warnings = warnings_checked(&self.warning_settings);
        let ok_files = files_checked(&self.memory_files);
        if !(ok_loc && ok_paths && ok_defines && ok_std && ok_warnings && ok_files) {
            return Err(MarshalError::InteriorNul);
        }
        let buflen = rom.data.len() as i32;
        let romlen = rom.length as i32;
        let numincludepaths = self.includepaths.len() as i32;
        let additional_define_count = self.additional_defines.len() as i32;
        let warning_setting_count = self.warning_settings.len() as i32;
        let memory_file_count = self.memory_files.len() as i32;
        Ok(
            PatchParams {
                rom,
                buflen,
                romlen,
                patchloc,
                includepaths: self.includepaths,
                numincludepaths,
                should_reset: self.should_reset,
                additional_defines: self.additional_defines,
                additional_define_count,
                stdincludesfile: self.stdincludesfile,
                stddefinesfile: self.stddefinesfile,
                warning_settings: self.warning_settings,
                warning_setting_count,
                memory_files: self.memory_files,
                memory_file_count,
                override_checksum_gen: self.override_checksum_gen,
                generate_checksum: self.generate_checksum,
            },
        )
    }
}

impl Default for AdvancedPatchOptions {
    fn default() -> (r: AdvancedPatchOptions)
        ensures
            r@ == default_options(),
    {
        AdvancedPatchOptions::new()
    }
}

} // verus!
