use vstd::prelude::*;

use crate::cursor::{avail, be16, be32, ByteCursor};

verus! {

/// Magic number of a WE32000 object without transfer vector.
pub const MAGIC_WE32K: u16 = 0x170;

/// Magic number of a WE32000 object with transfer vector.
pub const MAGIC_WE32K_TV: u16 = 0x171;

/// Size in bytes of the file header.
pub const FILE_HEADER_SIZE: usize = 20;

/// File header flag: relocation information stripped.
pub const F_RELFLG: u16 = 0x0001;

/// File header flag: executable, with no unresolved external references.
pub const F_EXEC: u16 = 0x0002;

/// File header flag: line numbers stripped.
pub const F_LNNO: u16 = 0x0004;

/// File header flag: local symbols stripped.
pub const F_LSYMS: u16 = 0x0008;

/// File header flag: byte ordering of an AR32W machine.
pub const F_AR32W: u16 = 0x0200;

/// File header flag: WE32100 required.
pub const F_BM32B: u16 = 0x2000;

/// File header flag: MAU hardware required.
pub const F_BM32MAU: u16 = 0x4000;

/// The 20-byte file header. `timestamp` is in Unix seconds, UTC; `flags`
/// keeps every bit of the file, known or not.
#[derive(Clone, Copy, Debug, PartialEq, Eq, Structural)]
pub struct FileHeader {
    pub magic: u16,
    pub section_count: u16,
    pub timestamp: u32,
    pub symbol_table_offset: u32,
    pub symbol_count: u32,
    pub opt_header: u16,
    pub flags: u16,
}

/// The file header stored at `s[p..p + 20]`.
pub open spec fn file_header_at(s: Seq<u8>, p: int) -> FileHeader {
    FileHeader {
        magic: be16(s, p) as u16,
        section_count: be16(s, p + 2) as u16,
        timestamp: be32(s, p + 4) as u32,
        symbol_table_offset: be32(s, p + 8) as u32,
        symbol_count: be32(s, p + 12) as u32,
        opt_header: be16(s, p + 16) as u16,
        flags: be16(s, p + 18) as u16,
    }
}

impl FileHeader {
    /// Reads a file header at the cursor.
    pub fn read(cursor: &mut ByteCursor) -> (r: Option<FileHeader>)
        ensures
            final(cursor).data() == old(cursor).data(),
            avail(old(cursor).data(), old(cursor).pos(), 20) ==> r == Some(file_header_at(old(cursor).data(), old(cursor).pos()))
                && final(cursor).pos() == old(cursor).pos() + 20,
            !avail(old(cursor).data(), old(cursor).pos(), 20) ==> r is None,
    {
        let magic = cursor.read_u16_be()?;
        let section_count = cursor.read_u16_be()?;
        let timestamp = cursor.read_u32_be()?;
        let symbol_table_offset = cursor.read_u32_be()?;
        let symbol_count = cursor.read_u32_be()?;
        let opt_header = cursor.read_u16_be()?;
        let flags = cursor.read_u16_be()?;
        Some(FileHeader { magic, section_count, timestamp, symbol_table_offset, symbol_count, opt_header, flags })
    }

    /// Whether the file is executable.
    pub fn executable(&self) -> (r: bool)
        ensures
            r == (self.flags & F_EXEC != 0),
    {
        self.flags & F_EXEC != 0
    }

    /// Whether local symbols were stripped.
    pub fn local_symbols_stripped(&self) -> (r: bool)
        ensures
            r == (self.flags & F_LSYMS != 0),
    {
        self.flags & F_LSYMS != 0
    }

    /// Whether a WE32100 is required.
    pub fn is_32100_required(&self) -> (r: bool)
        ensures
            r == (self.flags & F_BM32B != 0),
    {
        self.flags & F_BM32B != 0
    }

    /// Whether MAU hardware is required.
    pub fn mau_required(&self) -> (r: bool)
        ensures
            r == (self.flags & F_BM32MAU != 0),
    {
        self.flags & F_BM32MAU != 0
    }
}

/// The optional header, present when the file header's `opt_header` is not 0.
#[derive(Clone, Copy, Debug, PartialEq, Eq, Structural)]
pub struct OptionalHeader {
    pub magic: u16,
    pub version_stamp: u16,
    pub text_size: u32,
    pub dsize: u32,
    pub bsize: u32,
    pub entry_point: u32,
    pub text_start: u32,
    pub data_start: u32,
}

/// The optional header stored at `s[p..p + 28]`.
pub open spec fn optional_header_at(s: Seq<u8>, p: int) -> OptionalHeader {
    OptionalHeader {
        magic: be16(s, p) as u16,
        version_stamp: be16(s, p + 2) as u16,
        text_size: be32(s, p + 4) as u32,
        dsize: be32(s, p + 8) as u32,
        bsize: be32(s, p + 12) as u32,
        entry_point: be32(s, p + 16) as u32,
        text_start: be32(s, p + 20) as u32,
        data_start: be32(s, p + 24) as u32,
    }
}

impl OptionalHeader {
    /// Reads an optional header at the cursor.
    pub fn read(cursor: &mut ByteCursor) -> (r: Option<OptionalHeader>)
        ensures
            final(cursor).data() == old(cursor).data(),
            avail(old(cursor).data(), old(cursor).pos(), 28) ==> r == Some(optional_header_at(old(cursor).data(), old(cursor).pos()))
                && final(cursor).pos() == old(cursor).pos() + 28,
            !avail(old(cursor).data(), old(cursor).pos(), 28) ==> r is None,
    {
        let magic = cursor.read_u16_be()?;
        let version_stamp = cursor.read_u16_be()?;
        let text_size = cursor.read_u32_be()?;
        let dsize = cursor.read_u32_be()?;
        let bsize = cursor.read_u32_be()?;
        let entry_point = cursor.read_u32_be()?;
        let text_start = cursor.read_u32_be()?;
        let data_start = cursor.read_u32_be()?;
        Some(OptionalHeader { magic, version_stamp, text_size, dsize, bsize, entry_point, text_start, data_start })
    }
}

/// A 40-byte section header.
#[derive(Clone, Copy, Debug, PartialEq, Eq)]
pub struct SectionHeader {
    pub name: [u8; 8],
    pub paddr: u32,
    pub vaddr: u32,
    pub size: u32,
    pub scnptr: u32,
    pub relptr: u32,
    pub lnnoptr: u32,
    pub nreloc: u16,
    pub nlnno: u16,
    pub flags: u32,
}

/// The eight bytes at `s[p..p + 8]`.
pub open spec fn name_at(s: Seq<u8>, p: int) -> [u8; 8] {
    [s[p], s[p + 1], s[p + 2], s[p + 3], s[p + 4], s[p + 5], s[p + 6], s[p + 7]]
}

/// The section header stored at `s[p..p + 40]`.
pub open spec fn section_header_at(s: Seq<u8>, p: int) -> SectionHeader {
    SectionHeader {
        name: name_at(s, p),
        paddr: be32(s, p + 8) as u32,
        vaddr: be32(s, p + 12) as u32,
        size: be32(s, p + 16) as u32,
        scnptr: be32(s, p + 20) as u32,
        relptr: be32(s, p + 24) as u32,
        lnnoptr: be32(s, p + 28) as u32,
        nreloc: be16(s, p + 32) as u16,
        nlnno: be16(s, p + 34) as u16,
        flags: be32(s, p + 36) as u32,
    }
}

impl SectionHeader {
    /// Reads a section header at the cursor.
    pub fn read(cursor: &mut ByteCursor) -> (r: Option<SectionHeader>)
        ensures
            final(cursor).data() == old(cursor).data(),
            avail(old(cursor).data(), old(cursor).pos(), 40) ==> r == Some(section_header_at(old(cursor).data(), old(cursor).pos()))
                && final(cursor).pos() == old(cursor).pos() + 40,
            !avail(old(cursor).data(), old(cursor).pos(), 40) ==> r is None,
    {
        let ghost s = cursor.data();
        let ghost p = cursor.pos();
        let n = cursor.read_exact(8)?;
        let name: [u8; 8] = [n[0], n[1], n[2], n[3], n[4], n[5], n[6], n[7]];
        assert(name =~= name_at(s, p)) by {
            assert(n@ == s.subrange(p, p + 8));
        }
        let paddr = cursor.read_u32_be()?;
        let vaddr = cursor.read_u32_be()?;
        let size = cursor.read_u32_be()?;
        let scnptr = cursor.read_u32_be()?;
        let relptr = cursor.read_u32_be()?;
        let lnnoptr = cursor.read_u32_be()?;
        let nreloc = cursor.read_u16_be()?;
        let nlnno = cursor.read_u16_be()?;
        let flags = cursor.read_u32_be()?;
        Some(SectionHeader { name, paddr, vaddr, size, scnptr, relptr, lnnoptr, nreloc, nlnno, flags })
    }
}

/// A 10-byte relocation table entry.
#[derive(Clone, Copy, Debug, PartialEq, Eq, Structural)]
pub struct RelocationEntry {
    pub vaddr: u32,
    pub symndx: u32,
    pub rtype: u16,
}

/// The relocation entry stored at `s[p..p + 10]`.
pub open spec fn relocation_at(s: Seq<u8>, p: int) -> RelocationEntry {
    RelocationEntry { vaddr: be32(s, p) as u32, symndx: be32(s, p + 4) as u32, rtype: be16(s, p + 8) as u16 }
}

impl RelocationEntry {
    /// Reads a relocation entry at the cursor.
    pub fn read(cursor: &mut ByteCursor) -> (r: Option<RelocationEntry>)
        ensures
            final(cursor).data() == old(cursor).data(),
            avail(old(cursor).data(), old(cursor).pos(), 10) ==> r == Some(relocation_at(old(cursor).data(), old(cursor).pos()))
                && final(cursor).pos() == old(cursor).pos() + 10,
            !avail(old(cursor).data(), old(cursor).pos(), 10) ==> r is None,
    {
        let vaddr = cursor.read_u32_be()?;
        let symndx = cursor.read_u32_be()?;
        let rtype = cursor.read_u16_be()?;
        Some(RelocationEntry { vaddr, symndx, rtype })
    }
}

/// The storage class of a primary symbol.
#[derive(Clone, Copy, Debug, PartialEq, Eq, Structural)]
pub enum StorageClass {
    EndOfFunction,
    Null,
    Auto,
    ExternalSym,
    Static,
    Register,
    ExternalDef,
    Label,
    UndefinedLabel,
    MemberOfStruct,
    FunctionArg,
    StructureTag,
    MemberOfUnion,
    UnionTag,
    TypeDefinition,
    UninitializedStatic,
    EnumerationTag,
    MemberOfEnumeration,
    RegisterParameter,
    BitField,
    BeginEndBlock,
    BeginEndFunc,
    EndOfStruct,
    Filename,
    Line,
    Alias,
    Hidden,
}

/// The storage class that the signed byte `c` encodes; unknown codes are `Null`.
pub open spec fn storage_class_of(c: i8) -> StorageClass {
    match c {
        -1 => StorageClass::EndOfFunction,
        1 => StorageClass::Auto,
        2 => StorageClass::ExternalSym,
        3 => StorageClass::Static,
        4 => StorageClass::Register,
        5 => StorageClass::ExternalDef,
        6 => StorageClass::Label,
        7 => StorageClass::UndefinedLabel,
        8 => StorageClass::MemberOfStruct,
        9 => StorageClass::FunctionArg,
        10 => StorageClass::StructureTag,
        11 => StorageClass::MemberOfUnion,
        12 => StorageClass::UnionTag,
        13 => StorageClass::TypeDefinition,
        14 => StorageClass::UninitializedStatic,
        15 => StorageClass::EnumerationTag,
        16 => StorageClass::MemberOfEnumeration,
        17 => StorageClass::RegisterParameter,
        18 => StorageClass::BitField,
        100 => StorageClass::BeginEndBlock,
        101 => StorageClass::BeginEndFunc,
        102 => StorageClass::EndOfStruct,
        103 => StorageClass::Filename,
        104 => StorageClass::Line,
        105 => StorageClass::Alias,
        106 => StorageClass::Hidden,
        _ => StorageClass::Null,
    }
}

/// The description of storage class `c`, as listings show it.
pub open spec fn class_text(c: StorageClass) -> Seq<char> {
    match c {
        StorageClass::EndOfFunction => "end of function"@,
        StorageClass::Null => "null"@,
        StorageClass::Auto => "automatic variable"@,
        StorageClass::ExternalSym => "external symbol"@,
        StorageClass::Static => "static"@,
        StorageClass::Register => "register variable"@,
        StorageClass::ExternalDef => "external definition"@,
        StorageClass::Label => "label"@,
        StorageClass::UndefinedLabel => "undefined label"@,
        StorageClass::MemberOfStruct => "member of structure"@,
        StorageClass::FunctionArg => "function argument"@,
        StorageClass::StructureTag => "structure tag"@,
        StorageClass::MemberOfUnion => "member of union"@,
        StorageClass::UnionTag => "union tag"@,
        StorageClass::TypeDefinition => "type definition"@,
        StorageClass::UninitializedStatic => "uninitialized static"@,
        StorageClass::EnumerationTag => "enumeration tag"@,
        StorageClass::MemberOfEnumeration => "member of enumeration"@,
        StorageClass::RegisterParameter => "register parameter"@,
        StorageClass::BitField => "bit field"@,
        StorageClass::BeginEndBlock => "beginning and end of block"@,
        StorageClass::BeginEndFunc => "beginning and end of function"@,
        StorageClass::EndOfStruct => "end of structure"@,
        StorageClass::Filename => "filename"@,
        StorageClass::Line => "line"@,
        StorageClass::Alias => "duplicated tag"@,
        StorageClass::Hidden => "hidden"@,
    }
}

impl StorageClass {
    /// The storage class that the signed byte `c` encodes; unknown codes are `Null`.
    pub fn from_code(c: i8) -> (r: StorageClass)
        ensures
            r == storage_class_of(c),
    {
        match c {
            -1 => StorageClass::EndOfFunction,
            1 => StorageClass::Auto,
            2 => StorageClass::ExternalSym,
            3 => StorageClass::Static,
            4 => StorageClass::Register,
            5 => StorageClass::ExternalDef,
            6 => StorageClass::Label,
            7 => StorageClass::UndefinedLabel,
            8 => StorageClass::MemberOfStruct,
            9 => StorageClass::FunctionArg,
            10 => StorageClass::StructureTag,
            11 => StorageClass::MemberOfUnion,
            12 => StorageClass::UnionTag,
            13 => StorageClass::TypeDefinition,
            14 => StorageClass::UninitializedStatic,
            15 => StorageClass::EnumerationTag,
            16 => StorageClass::MemberOfEnumeration,
            17 => StorageClass::RegisterParameter,
            18 => StorageClass::BitField,
            100 => StorageClass::BeginEndBlock,
            101 => StorageClass::BeginEndFunc,
            102 => StorageClass::EndOfStruct,
            103 => StorageClass::Filename,
            104 => StorageClass::Line,
            105 => StorageClass::Alias,
            106 => StorageClass::Hidden,
            _ => StorageClass::Null,
        }
    }

    /// A description of the storage class, as listings show it.
    pub fn description(&self) -> (r: &'static str)
        ensures
            r@ == class_text(*self),
    {
        match self {
            StorageClass::EndOfFunction => "end of function",
            StorageClass::Null => "null",
            StorageClass::Auto => "automatic variable",
            StorageClass::ExternalSym => "external symbol",
            StorageClass::Static => "static",
            StorageClass::Register => "register variable",
            StorageClass::ExternalDef => "external definition",
            StorageClass::Label => "label",
            StorageClass::UndefinedLabel => "undefined label",
            StorageClass::MemberOfStruct => "member of structure",
            StorageClass::FunctionArg => "function argument",
            StorageClass::StructureTag => "structure tag",
            StorageClass::MemberOfUnion => "member of union",
            StorageClass::UnionTag => "union tag",
            StorageClass::TypeDefinition => "type definition",
            StorageClass::UninitializedStatic => "uninitialized static",
            StorageClass::EnumerationTag => "enumeration tag",
            StorageClass::MemberOfEnumeration => "member of enumeration",
            StorageClass::RegisterParameter => "register parameter",
            StorageClass::BitField => "bit field",
            StorageClass::BeginEndBlock => "beginning and end of block",
            StorageClass::BeginEndFunc => "beginning and end of function",
            StorageClass::EndOfStruct => "end of structure",
            StorageClass::Filename => "filename",
            StorageClass::Line => "line",
            StorageClass::Alias => "duplicated tag",
            StorageClass::Hidden => "hidden",
        }
    }
}

} // verus!
