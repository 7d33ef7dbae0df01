//! The values that cross between the engine and its callers.
use vstd::prelude::*;

verus! {

/// A ROM image: a byte buffer and the logical length of the ROM held in it.
///
/// The logical length may be smaller than the buffer; the engine never writes past the
/// buffer, so a patch that would not fit fails instead.
#[derive(Debug, Clone)]
pub struct RomData {
    pub data: Vec<u8>,
    pub length: usize,
}

impl RomData {
    /// The logical length lies within the buffer.
    pub open spec fn wf(&self) -> bool {
        self.length <= self.data.len()
    }

    /// A ROM whose logical length is the whole buffer.
    pub fn from_vec(data: Vec<u8>) -> (r: RomData)
        ensures
            r.data == data,
            r.length == data.len(),
            r.wf(),
    {
        let length = data.len();
        RomData { data, length }
    }

    /// A ROM with the given buffer and logical length.
    pub fn new(data: Vec<u8>, length: usize) -> (r: RomData)
        ensures
            r.data == data,
            r.length == length,
    {
        RomData { data, length }
    }
}

impl Default for RomData {
    fn default() -> (r: RomData)
        ensures
            r.data@.len() == 0,
            r.length == 0,
    {
        RomData { data: Vec::new(), length: 0 }
    }
}

impl From<Vec<u8>> for RomData {
    fn from(data: Vec<u8>) -> (r: RomData) {
        RomData::from_vec(data)
    }
}

impl vstd::std_specs::convert::FromSpecImpl<Vec<u8>> for RomData {
    open spec fn obeys_from_spec() -> bool {
        true
    }

    open spec fn from_spec(v: Vec<u8>) -> RomData {
        RomData { data: v, length: v.len() }
    }
}

/// A diagnostic reported by the engine: an error, or a warning of the same shape.
#[derive(Debug, Clone)]
pub struct ErrorData {
    pub fullerrdata: String,
    pub rawerrdata: String,
    pub block: String,
    pub filename: String,
    pub line: i32,
    pub callerfilename: String,
    pub callerline: i32,
    pub errid: i32,
}

/// A warning reported by the engine.
pub type WarningData = ErrorData;

/// The text of an optional engine string: an absent one reads as empty.
pub open spec fn text_or_empty(s: Option<String>) -> Seq<char> {
    match s {
        Some(t) => t@,
        None => Seq::empty(),
    }
}

fn string_or_empty(s: Option<String>) -> (r: String)
    ensures
        r@ == text_or_empty(s),
{
    match s {
        Some(t) => t,
        None => String::new(),
    }
}

impl ErrorData {
    /// Builds a diagnostic from the fields of an engine record; the file names are
    /// absent when the engine has none to give.
    pub fn from_raw(
        fullerrdata: String,
        rawerrdata: String,
        block: String,
        filename: Option<String>,
        line: i32,
        callerfilename: Option<String>,
        callerline: i32,
        errid: i32,
    ) -> (r: ErrorData)
        ensures
            r.fullerrdata@ == fullerrdata@,
            r.rawerrdata@ == rawerrdata@,
            r.block@ == block@,
            r.filename@ == text_or_empty(filename),
            r.line == line,
            r.callerfilename@ == text_or_empty(callerfilename),
            r.callerline == callerline,
            r.errid == errid,
    {
        ErrorData {
            fullerrdata,
            rawerrdata,
            block,
            filename: string_or_empty(filename),
            line,
            callerfilename: string_or_empty(callerfilename),
            callerline,
            errid,
        }
    }
}

/// A define: a name and its contents.
#[derive(Debug, Clone)]
pub struct Define {
    pub name: String,
    pub contents: String,
}

impl View for Define {
    type V = (Seq<char>, Seq<char>);

    open spec fn view(&self) -> (Seq<char>, Seq<char>) {
        (self.name@, self.contents@)
    }
}

impl Define {
    /// Builds a define from the name and contents of an engine record.
    pub fn from_raw(name: String, contents: String) -> (r: Define)
        ensures
            r@ == (name@, contents@),
    {
        Define { name, contents }
    }
}

/// One contiguous region written by a patch: its offset in the file, its address on the
/// SNES, and its size in bytes.
#[derive(Debug, Clone, Copy, PartialEq, Eq, Structural)]
pub struct WrittenBlock {
    pub pcoffset: i32,
    pub snesoffset: i32,
    pub numbytes: i32,
}

impl WrittenBlock {
    /// Builds a written block from the fields of an engine record.
    pub fn from_raw(pcoffset: i32, snesoffset: i32, numbytes: i32) -> (r: WrittenBlock)
        ensures
            r == (WrittenBlock { pcoffset, snesoffset, numbytes }),
    {
        WrittenBlock { pcoffset, snesoffset, numbytes }
    }
}

/// A label and its SNES address.
#[derive(Debug, Clone)]
pub struct Label {
    pub name: String,
    pub location: i32,
}

impl Label {
    /// Builds a label from the fields of an engine record.
    pub fn from_raw(name: String, location: i32) -> (r: Label)
        ensures
            r.name@ == name@,
            r.location == location,
    {
        Label { name, location }
    }
}

/// The value the engine gives for a label that it does not know.
pub const NO_LABEL: i32 = -1;

/// The value of a label as the engine reports it, with the sentinel read as absent.
pub fn label_value_from_raw(value: i32) -> (r: Option<i32>)
    ensures
        value == NO_LABEL ==> r is None,
        value != NO_LABEL ==> r == Some(value),
{
    if value == NO_LABEL {
        None
    } else {
        Some(value)
    }
}

/// The memory layouts that the engine knows of.
#[allow(non_camel_case_types)]
#[derive(Debug, Clone, Copy, PartialEq, Eq, Structural)]
pub enum MapperType {
    invalid_mapper,
    lorom,
    hirom,
    sa1rom,
    bigsa1rom,
    sfxrom,
    exlorom,
    exhirom,
    norom,
}

/// The layout that an engine code stands for, in the order of the engine's enumeration.
pub open spec fn mapper_of_code(code: i32) -> Option<MapperType> {
    if code == 1 {
        Some(MapperType::lorom)
    } else if code == 2 {
        Some(MapperType::hirom)
    } else if code == 3 {
        Some(MapperType::sa1rom)
    } else if code == 4 {
        Some(MapperType::bigsa1rom)
    } else if code == 5 {
        Some(MapperType::sfxrom)
    } else if code == 6 {
        Some(MapperType::exlorom)
    } else if code == 7 {
        Some(MapperType::exhirom)
    } else if code == 8 {
        Some(MapperType::norom)
    } else {
        None
    }
}

impl MapperType {
    /// The layout behind an engine code; the invalid sentinel and unknown codes give
    /// `None`.
    pub fn from_raw(code: i32) -> (r: Option<MapperType>)
        ensures
            r == mapper_of_code(code),
            r != Some(MapperType::invalid_mapper),
    {
        match code {
            1 => Some(MapperType::lorom),
            2 => Some(MapperType::hirom),
            3 => Some(MapperType::sa1rom),
            4 => Some(MapperType::bigsa1rom),
            5 => Some(MapperType::sfxrom),
            6 => Some(MapperType::exlorom),
            7 => Some(MapperType::exhirom),
            8 => Some(MapperType::norom),
            _ => None,
        }
    }
}

/// The formats in which the engine writes a symbols file.
#[derive(Debug, Clone, Copy, PartialEq, Eq, Structural)]
pub enum SymbolType {
    WLA,
    NoCash,
}

impl SymbolType {
    /// The name under which the engine knows this format.
    pub fn name(&self) -> (r: &'static str)
        ensures
            *self == SymbolType::WLA ==> r@ == "wla"@,
            *self == SymbolType::NoCash ==> r@ == "nocash"@,
    {
        proof {
            reveal_strlit("wla");
            reveal_strlit("nocash");
        }
        match self {
            SymbolType::WLA => "wla",
            SymbolType::NoCash => "nocash",
        }
    }
}

/// The outcome of a patch: the patched ROM and the warnings, or the errors.
#[derive(Debug, Clone)]
pub enum PatchResult {
    Success(RomData, Vec<WarningData>),
    Failure(Vec<ErrorData>),
}

/// The error of a second apply while the result of an earlier one is still alive.
#[derive(Debug, Clone, Copy, PartialEq, Eq, Structural)]
pub struct ConcurrentApplyError;

pub open spec fn concurrent_apply_text() -> Seq<char> {
    "Cannot call `Patcher::apply` while another `ApplyResult` is alive, drop() it or consume it by calling `ApplyResult::romdata()`."@
}

impl ConcurrentApplyError {
    /// What went wrong, in words.
    pub fn message(&self) -> (r: String)
        ensures
            r@ == concurrent_apply_text(),
    {
        let s = "Cannot call `Patcher::apply` while another `ApplyResult` is alive, drop() it or consume it by calling `ApplyResult::romdata()`.";
        proof {
            reveal_strlit("Cannot call `Patcher::apply` while another `ApplyResult` is alive, drop() it or consume it by calling `ApplyResult::romdata()`.");
        }
        s.to_owned()
    }
}

} // verus!
