use vstd::prelude::*;
use vstd::string::*;

use crate::coff::{class_text, RelocationEntry, FileHeader, OptionalHeader, SectionHeader, F_BM32B, F_BM32MAU, F_EXEC, F_LSYMS, MAGIC_WE32K, MAGIC_WE32K_TV};
use crate::container::FileContainer;
use crate::errors::OffsetError;
use crate::render::{
    dec_digits, dec_string, dec_zero_padded, hex_digits, hex_padded, hex_string, repeat, right_aligned, signed_digits,
    signed_string, space_padded, zero_padded,
};
use crate::strtab::{entries_view, name_at_offset, StringTable};
use crate::symbol::Symbol;
use crate::text::{buf_to_str, c_bytes, c_text_or_unknown, text_or_unknown, utf8_of};

verus! {

/// The UTC date and time of a Unix time in seconds, in RFC 2822 form.
pub uninterp spec fn rfc2822_of(seconds: int) -> Seq<char>;

/// Relies on chrono's `DateTime::<Utc>::from_timestamp` and `to_rfc2822`: the
/// RFC 2822 text of a Unix time in UTC, which depends on the seconds alone.
/// Every `u32` of seconds is a representable date, so the `None` arm is not taken.
#[verifier::external_body]
fn rfc2822_utc(seconds: u32) -> (r: String)
    ensures
        r@ == rfc2822_of(seconds as int),
{
    match chrono::DateTime::<chrono::Utc>::from_timestamp(i64::from(seconds), 0) {
        Some(t) => t.to_rfc2822(),
        None => String::new(),
    }
}

/// `t` where `cond` holds, else nothing.
pub open spec fn when(cond: bool, t: Seq<char>) -> Seq<char> {
    if cond {
        t
    } else {
        Seq::empty()
    }
}

/// Appends `t` to `s` where `cond` holds.
fn append_when(s: &mut String, cond: bool, t: &str)
    ensures
        final(s)@ == old(s)@ + when(cond, t@),
{
    if cond {
        s.append(t);
    } else {
        assert(old(s)@ + when(cond, t@) =~= old(s)@);
    }
}

/// Appends `label`, `value` and a line break to `s`.
fn append_field(s: &mut String, label: &str, value: &str)
    ensures
        final(s)@ == old(s)@ + label@ + value@ + "\n"@,
{
    s.append(label);
    s.append(value);
    s.append("\n");
}

/// The description of a file header.
pub open spec fn file_header_text(h: FileHeader) -> Seq<char> {
    "COFF File Header:\n"@ + if h.magic == MAGIC_WE32K || h.magic == MAGIC_WE32K_TV {
        "WE32000"@
    } else {
        "Unknown"@
    } + when(h.flags & F_EXEC != 0, " executable"@) + when(h.flags & F_LSYMS == 0, " not stripped"@) + when(
        h.flags & F_BM32B != 0,
        ", 32100 required"@,
    ) + when(h.flags & F_BM32MAU != 0, ", MAU hardware required"@) + ".\n"@ + "    Magic Number:  "@ + "0x"@
        + zero_padded(hex_digits(h.magic as nat), 4) + "\n"@ + "    Num Sections:  "@ + dec_digits(h.section_count as nat)
        + "\n"@ + "    Date:          "@ + rfc2822_of(h.timestamp as int) + "\n"@ + "    Symbols Ptr:   0x"@ + hex_digits(
        h.symbol_table_offset as nat,
    ) + "\n"@ + "    Symbol Count:  "@ + dec_digits(h.symbol_count as nat) + "\n"@ + "    Opt Hdr:       "@ + if h.opt_header
        == 28 {
        "true"@
    } else {
        "false"@
    } + "\n"@ + "    Flags:         0x"@ + zero_padded(hex_digits(h.flags as nat), 4)
}

impl FileHeader {
    /// A description of the header: its kind, its flags in words, and each field.
    pub fn describe(&self) -> (r: String)
        ensures
            r@ == file_header_text(*self),
    {
        let mut s = "COFF File Header:\n".to_owned();
        if self.magic == MAGIC_WE32K || self.magic == MAGIC_WE32K_TV {
            s.append("WE32000");
        } else {
            s.append("Unknown");
        }
        append_when(&mut s, self.executable(), " executable");
        append_when(&mut s, !self.local_symbols_stripped(), " not stripped");
        append_when(&mut s, self.is_32100_required(), ", 32100 required");
        append_when(&mut s, self.mau_required(), ", MAU hardware required");
        s.append(".\n");
        s.append("    Magic Number:  ");
        append_field(&mut s, "0x", hex_padded(self.magic as u64, 4).as_str());
        append_field(&mut s, "    Num Sections:  ", dec_string(self.section_count as u64).as_str());
        append_field(&mut s, "    Date:          ", rfc2822_utc(self.timestamp).as_str());
        append_field(&mut s, "    Symbols Ptr:   0x", hex_string(self.symbol_table_offset as u64).as_str());
        append_field(&mut s, "    Symbol Count:  ", dec_string(self.symbol_count as u64).as_str());
        if self.opt_header == 28 {
            append_field(&mut s, "    Opt Hdr:       ", "true");
        } else {
            append_field(&mut s, "    Opt Hdr:       ", "false");
        }
        s.append("    Flags:         0x");
        s.append(hex_padded(self.flags as u64, 4).as_str());
        s
    }
}

/// The description of an optional header.
pub open spec fn optional_header_text(h: OptionalHeader) -> Seq<char> {
    "Optional Header:\n"@ + "    Magic Number:    0x"@ + zero_padded(hex_digits(h.magic as nat), 4) + "\n"@
        + "    Version Stamp:   0x"@ + zero_padded(hex_digits(h.version_stamp as nat), 4) + "\n"@
        + "    Text Size:       0x"@ + hex_digits(h.text_size as nat) + "\n"@ + "    dsize:           0x"@
        + hex_digits(h.dsize as nat) + "\n"@ + "    bsize:           0x"@ + hex_digits(h.bsize as nat) + "\n"@
        + "    Entry Point:     0x"@ + hex_digits(h.entry_point as nat) + "\n"@ + "    Text Start:      0x"@
        + hex_digits(h.text_start as nat) + "\n"@ + "    Data Start:      0x"@ + hex_digits(h.data_start as nat)
}

impl OptionalHeader {
    /// A description of each field of the header.
    pub fn describe(&self) -> (r: String)
        ensures
            r@ == optional_header_text(*self),
    {
        let mut s = "Optional Header:\n".to_owned();
        append_field(&mut s, "    Magic Number:    0x", hex_padded(self.magic as u64, 4).as_str());
        append_field(&mut s, "    Version Stamp:   0x", hex_padded(self.version_stamp as u64, 4).as_str());
        append_field(&mut s, "    Text Size:       0x", hex_string(self.text_size as u64).as_str());
        append_field(&mut s, "    dsize:           0x", hex_string(self.dsize as u64).as_str());
        append_field(&mut s, "    bsize:           0x", hex_string(self.bsize as u64).as_str());
        append_field(&mut s, "    Entry Point:     0x", hex_string(self.entry_point as u64).as_str());
        append_field(&mut s, "    Text Start:      0x", hex_string(self.text_start as u64).as_str());
        s.append("    Data Start:      0x");
        s.append(hex_string(self.data_start as u64).as_str());
        s
    }
}

/// The description of a section header.
pub open spec fn section_header_text(h: SectionHeader) -> Seq<char> {
    "Section Header:\n"@ + "    Name:              "@ + text_or_unknown(c_bytes(h.name@)) + "\n"@
        + "    Phys. Addr:        0x"@ + hex_digits(h.paddr as nat) + "\n"@ + "    Virtual Addr:      0x"@
        + hex_digits(h.vaddr as nat) + "\n"@ + "    Sec. Size:         0x"@ + hex_digits(h.size as nat) + "\n"@
        + "    Data Offset:       0x"@ + hex_digits(h.scnptr as nat) + "\n"@ + "    Rel. Tab. Offset:  0x"@
        + hex_digits(h.relptr as nat) + "\n"@ + "    Line Num. Offset:  0x"@ + hex_digits(h.lnnoptr as nat) + "\n"@
        + "    Rel. Tab. Entries: "@ + dec_digits(h.nreloc as nat) + "\n"@ + "    Line Num. Entries: "@ + dec_digits(
        h.nlnno as nat,
    ) + "\n"@ + "    Flags:             0x"@ + zero_padded(hex_digits(h.flags as nat), 8)
}

impl SectionHeader {
    /// A description of each field of the header, the name as text.
    pub fn describe(&self) -> (r: String)
        ensures
            r@ == section_header_text(*self),
    {
        let mut s = "Section Header:\n".to_owned();
        append_field(&mut s, "    Name:              ", c_text_or_unknown(&self.name).as_str());
        append_field(&mut s, "    Phys. Addr:        0x", hex_string(self.paddr as u64).as_str());
        append_field(&mut s, "    Virtual Addr:      0x", hex_string(self.vaddr as u64).as_str());
        append_field(&mut s, "    Sec. Size:         0x", hex_string(self.size as u64).as_str());
        append_field(&mut s, "    Data Offset:       0x", hex_string(self.scnptr as u64).as_str());
        append_field(&mut s, "    Rel. Tab. Offset:  0x", hex_string(self.relptr as u64).as_str());
        append_field(&mut s, "    Line Num. Offset:  0x", hex_string(self.lnnoptr as u64).as_str());
        append_field(&mut s, "    Rel. Tab. Entries: ", dec_string(self.nreloc as u64).as_str());
        append_field(&mut s, "    Line Num. Entries: ", dec_string(self.nlnno as u64).as_str());
        s.append("    Flags:             0x");
        s.append(hex_padded(self.flags as u64, 8).as_str());
        s
    }
}

/// The row of relocation entry `e`, number `i`.
pub open spec fn relocation_row(i: int, e: RelocationEntry) -> Seq<char> {
    "        ["@ + zero_padded(dec_digits(i as nat), 3) + "]  0x"@ + zero_padded(hex_digits(e.vaddr as nat), 8) + "  "@
        + space_padded(dec_digits(e.symndx as nat), 6) + "  "@ + space_padded(dec_digits(e.rtype as nat), 3) + "\n"@
}

/// The rows of the relocation entries `es`.
pub open spec fn relocation_rows(es: Seq<RelocationEntry>) -> Seq<char>
    decreases es.len(),
{
    if es.len() == 0 {
        Seq::empty()
    } else {
        relocation_rows(es.drop_last()) + relocation_row(es.len() - 1, es.last())
    }
}

/// The listing of the relocation entries `es`.
pub open spec fn relocation_table_text(es: Seq<RelocationEntry>) -> Seq<char> {
    "    Relocation Table:\n"@ + if es.len() > 0 {
        "        Num    Vaddr       Symndx  Type\n"@ + "        -----  ----------  ------  ----\n"@ + relocation_rows(es)
    } else {
        "       No Entries.\n"@
    }
}

/// The row of string `e` of a string table.
pub open spec fn string_row(e: (u32, Seq<char>)) -> Seq<char> {
    "    ["@ + space_padded(dec_digits(e.0 as nat), 4) + "]    "@ + e.1 + "\n"@
}

/// The rows of the strings `es`.
pub open spec fn string_rows(es: Seq<(u32, Seq<char>)>) -> Seq<char>
    decreases es.len(),
{
    if es.len() == 0 {
        Seq::empty()
    } else {
        string_rows(es.drop_last()) + string_row(es.last())
    }
}

/// The listing of the strings `es`.
pub open spec fn strings_table_text(es: Seq<(u32, Seq<char>)>) -> Seq<char> {
    "Strings Table:\n"@ + if es.len() > 0 {
        string_rows(es)
    } else {
        "    No Strings\n"@
    }
}

/// The name of a primary symbol: from the string table where `zeroes` is 0,
/// else from the inline name; `???` where it is not valid text.
pub open spec fn symbol_name(t: StringTable, zeroes: u32, offset: u32, name: [u8; 8]) -> Seq<char> {
    let found = if zeroes == 0 {
        name_at_offset(t.data@, offset as int)
    } else {
        utf8_of(c_bytes(name@))
    };
    match found {
        Some(x) => x,
        None => "???"@,
    }
}

/// The fields of a primary symbol after its index.
pub open spec fn primary_fields(
    t: StringTable,
    n_name: [u8; 8],
    n_zeroes: u32,
    n_offset: u32,
    n_value: u32,
    n_scnum: i16,
    n_type: u16,
    n_numaux: u8,
    storage_class: crate::coff::StorageClass,
) -> Seq<char> {
    "        name: '"@ + symbol_name(t, n_zeroes, n_offset, n_name) + "',\n"@ + "        value: '0x"@ + hex_digits(
        n_value as nat,
    ) + "',\n"@ + "        section: "@ + signed_digits(n_scnum as int) + ",\n"@ + "        type: '0x"@ + zero_padded(
        hex_digits(n_type as nat),
        2,
    ) + "',\n"@ + "        class: '"@ + class_text(storage_class) + "',\n"@ + "        numaux: "@ + dec_digits(
        n_numaux as nat,
    ) + "\n"@
}

/// The fields of an auxiliary symbol after its index: the file name where
/// it has one, else its tag index, line, size and function size; then the rest.
pub open spec fn auxiliary_fields(
    x_fname: Option<String>,
    x_tagndx: u32,
    x_lnno: u16,
    x_size: u16,
    x_fsize: u32,
    x_lnnoptr: u32,
    x_endndx: u32,
    x_dimen: [u16; 4],
    x_tvndx: u16,
) -> Seq<char> {
    (match x_fname {
        Some(f) => "        filename: '"@ + f@ + "',\n"@,
        None => "        tagindex: "@ + dec_digits(x_tagndx as nat) + ",\n"@ + "        lnno: '0x"@ + hex_digits(
            x_lnno as nat,
        ) + "',\n"@ + "        size: '0x"@ + hex_digits(x_size as nat) + "',\n"@ + "        fsize: '0x"@ + hex_digits(
            x_fsize as nat,
        ) + "',\n"@,
    }) + "        lnnoptr: '0x"@ + hex_digits(x_lnnoptr as nat) + "',\n"@ + "        endndx: "@ + dec_digits(
        x_endndx as nat,
    ) + ",\n"@ + "        dim0: "@ + dec_digits(x_dimen[0] as nat) + ",\n"@ + "        dim1: "@ + dec_digits(
        x_dimen[1] as nat,
    ) + ",\n"@ + "        tvndx: "@ + dec_digits(x_tvndx as nat) + "\n"@
}

/// The fields of symbol number `i`, without the braces around them.
pub open spec fn symbol_fields(t: StringTable, i: int, sym: Symbol) -> Seq<char> {
    "        index: "@ + dec_digits(i as nat) + ",\n"@ + match sym {
        Symbol::Primary { n_name, n_zeroes, n_offset, n_value, n_scnum, n_type, n_numaux, storage_class } => primary_fields(
            t,
            n_name,
            n_zeroes,
            n_offset,
            n_value,
            n_scnum,
            n_type,
            n_numaux,
            storage_class,
        ),
        Symbol::Auxiliary { x_fname, x_tagndx, x_lnno, x_size, x_fsize, x_lnnoptr, x_endndx, x_dimen, x_tvndx } => auxiliary_fields(
            x_fname,
            x_tagndx,
            x_lnno,
            x_size,
            x_fsize,
            x_lnnoptr,
            x_endndx,
            x_dimen,
            x_tvndx,
        ),
    }
}

/// The entries of symbols `syms` from the first on, of a table of `n` symbols.
pub open spec fn symbol_rows(t: StringTable, syms: Seq<Symbol>, n: int) -> Seq<char>
    decreases syms.len(),
{
    if syms.len() == 0 {
        Seq::empty()
    } else {
        let i = syms.len() - 1;
        symbol_rows(t, syms.drop_last(), n) + "    {\n"@ + symbol_fields(t, i, syms.last()) + if i < n - 1 {
            "    },\n"@
        } else {
            "    }\n"@
        }
    }
}

/// The listing of the symbols `syms`.
pub open spec fn symbol_table_text(t: StringTable, syms: Seq<Symbol>) -> Seq<char> {
    "Symbol Table:\n"@ + if syms.len() == 0 {
        "    No Entries\n"@
    } else {
        "[\n"@ + symbol_rows(t, syms, syms.len() as int) + "]\n"@
    }
}

/// The symbols of the entries `es`.
pub open spec fn symbols_of(es: Seq<crate::symbol::SymbolTableEntry>) -> Seq<Symbol> {
    es.map_values(|e: crate::symbol::SymbolTableEntry| e.symbol)
}

/// The name of a primary symbol, as `symbol_name` gives it.
fn primary_name(t: &StringTable, zeroes: u32, offset: u32, name: &[u8; 8]) -> (r: String)
    ensures
        r@ == symbol_name(*t, zeroes, offset, *name),
{
    let found = if zeroes == 0 {
        t.string_at(offset)
    } else {
        buf_to_str(name)
    };
    match found {
        Some(x) => x,
        None => "???".to_owned(),
    }
}

/// The fields of a primary symbol after its index.
fn primary_fields_text(t: &StringTable, sym: &Symbol) -> (r: String)
    requires
        sym is Primary,
    ensures
        *sym matches Symbol::Primary { n_name, n_zeroes, n_offset, n_value, n_scnum, n_type, n_numaux, storage_class }
            ==> r@ == primary_fields(*t, n_name, n_zeroes, n_offset, n_value, n_scnum, n_type, n_numaux, storage_class),
{
    match sym {
        Symbol::Primary { n_name, n_zeroes, n_offset, n_value, n_scnum, n_type, n_numaux, storage_class } => {
            let mut s = "        name: '".to_owned();
            s.append(primary_name(t, *n_zeroes, *n_offset, n_name).as_str());
            s.append("',\n");
            s.append("        value: '0x");
            s.append(hex_string(*n_value as u64).as_str());
            s.append("',\n");
            s.append("        section: ");
            s.append(signed_string(*n_scnum as i32).as_str());
            s.append(",\n");
            s.append("        type: '0x");
            s.append(hex_padded(*n_type as u64, 2).as_str());
            s.append("',\n");
            s.append("        class: '");
            s.append(storage_class.description());
            s.append("',\n");
            s.append("        numaux: ");
            s.append(dec_string(*n_numaux as u64).as_str());
            s.append("\n");
            s
        },
        _ => String::new(),
    }
}

/// The fields of an auxiliary symbol after its index.
fn auxiliary_fields_text(sym: &Symbol) -> (r: String)
    requires
        sym is Auxiliary,
    ensures
        *sym matches Symbol::Auxiliary { x_fname, x_tagndx, x_lnno, x_size, x_fsize, x_lnnoptr, x_endndx, x_dimen, x_tvndx }
            ==> r@ == auxiliary_fields(x_fname, x_tagndx, x_lnno, x_size, x_fsize, x_lnnoptr, x_endndx, x_dimen, x_tvndx),
{
    match sym {
        Symbol::Auxiliary { x_fname, x_tagndx, x_lnno, x_size, x_fsize, x_lnnoptr, x_endndx, x_dimen, x_tvndx } => {
            let mut s = match x_fname {
                Some(f) => {
                    let mut s = "        filename: '".to_owned();
                    s.append(f.as_str());
                    s.append("',\n");
                    s
                },
                None => {
                    let mut s = "        tagindex: ".to_owned();
                    s.append(dec_string(*x_tagndx as u64).as_str());
                    s.append(",\n");
                    s.append("        lnno: '0x");
                    s.append(hex_string(*x_lnno as u64).as_str());
                    s.append("',\n");
                    s.append("        size: '0x");
                    s.append(hex_string(*x_size as u64).as_str());
                    s.append("',\n");
                    s.append("        fsize: '0x");
                    s.append(hex_string(*x_fsize as u64).as_str());
                    s.append("',\n");
                    s
                },
            };
            s.append("        lnnoptr: '0x");
            s.append(hex_string(*x_lnnoptr as u64).as_str());
            s.append("',\n");
            s.append("        endndx: ");
            s.append(dec_string(*x_endndx as u64).as_str());
            s.append(",\n");
            s.append("        dim0: ");
            s.append(dec_string(x_dimen[0] as u64).as_str());
            s.append(",\n");
            s.append("        dim1: ");
            s.append(dec_string(x_dimen[1] as u64).as_str());
            s.append(",\n");
            s.append("        tvndx: ");
            s.append(dec_string(*x_tvndx as u64).as_str());
            s.append("\n");
            s
        },
        _ => String::new(),
    }
}

/// Appends the fields of symbol number `i` to `s`.
fn append_symbol_fields(s: &mut String, t: &StringTable, i: usize, sym: &Symbol)
    ensures
        final(s)@ == old(s)@ + symbol_fields(*t, i as int, *sym),
{
    let ghost before = s@;
    let idx = dec_string(i as u64);
    s.append("        index: ");
    s.append(idx.as_str());
    s.append(",\n");
    let text = match sym {
        Symbol::Primary { .. } => primary_fields_text(t, sym),
        Symbol::Auxiliary { .. } => auxiliary_fields_text(sym),
    };
    let ghost head = s@;
    s.append(text.as_str());
    assert(s@ =~= before + symbol_fields(*t, i as int, *sym));
}

/// The row of relocation entry `e`, number `i`.
fn relocation_row_text(i: usize, e: RelocationEntry) -> (r: String)
    ensures
        r@ == relocation_row(i as int, e),
{
    let mut s = "        [".to_owned();
    s.append(dec_zero_padded(i as u64, 3).as_str());
    s.append("]  0x");
    s.append(hex_padded(e.vaddr as u64, 8).as_str());
    s.append("  ");
    s.append(right_aligned(dec_string(e.symndx as u64), 6).as_str());
    s.append("  ");
    s.append(right_aligned(dec_string(e.rtype as u64), 3).as_str());
    s.append("\n");
    s
}

/// The row of a string of a string table.
fn string_row_text(offset: u32, text: &String) -> (r: String)
    ensures
        r@ == string_row((offset, text@)),
{
    let mut s = "    [".to_owned();
    s.append(right_aligned(dec_string(offset as u64), 4).as_str());
    s.append("]    ");
    s.append(text.as_str());
    s.append("\n");
    s
}

impl FileContainer {
    /// The listing of the relocation entries of section `sec_num`.
    pub fn dump_relocation_table(&self, sec_num: usize) -> (r: Result<String, OffsetError>)
        ensures
            sec_num < self.sections@.len() ==> (r matches Ok(t) && t@ == relocation_table_text(
                self.sections@[sec_num as int].relocation_table@,
            )),
            sec_num >= self.sections@.len() ==> r == Err::<String, OffsetError>(OffsetError),
    {
        if sec_num >= self.sections.len() {
            return Err(OffsetError);
        }
        let es = &self.sections[sec_num].relocation_table;
        let mut s = "    Relocation Table:\n".to_owned();
        if es.len() > 0 {
            s.append("        Num    Vaddr       Symndx  Type\n");
            s.append("        -----  ----------  ------  ----\n");
            let ghost head = s@;
            let mut i: usize = 0;
            while i < es.len()
                invariant
                    i <= es@.len(),
                    s@ == head + relocation_rows(es@.subrange(0, i as int)),
                decreases es@.len() - i,
            {
                s.append(relocation_row_text(i, es[i]).as_str());
                assert(es@.subrange(0, i + 1).drop_last() =~= es@.subrange(0, i as int));
                i = i + 1;
            }
            assert(es@.subrange(0, i as int) =~= es@);
        } else {
            s.append("       No Entries.\n");
        }
        Ok(s)
    }

    /// The listing of the string table, in order of offset.
    pub fn dump_strings_table(&self) -> (r: String)
        ensures
            r@ == strings_table_text(entries_view(self.strings.strings@)),
    {
        let es = &self.strings.strings;
        let ghost ev = entries_view(es@);
        let mut s = "Strings Table:\n".to_owned();
        if es.len() > 0 {
            let ghost head = s@;
            let mut i: usize = 0;
            while i < es.len()
                invariant
                    ev == entries_view(es@),
                    i <= es@.len(),
                    s@ == head + string_rows(ev.subrange(0, i as int)),
                decreases es@.len() - i,
            {
                let e = &es[i];
                s.append(string_row_text(e.0, &e.1).as_str());
                assert(ev.subrange(0, i + 1).drop_last() =~= ev.subrange(0, i as int));
                i = i + 1;
            }
            assert(ev.subrange(0, i as int) =~= ev);
        } else {
            s.append("    No Strings\n");
        }
        s
    }

    /// The listing of the symbol table, primaries named from the string table
    /// or their inline names.
    pub fn dump_symbol_table(&self) -> (r: String)
        ensures
            r@ == symbol_table_text(self.strings, symbols_of(self.symbols@)),
    {
        let ghost syms = symbols_of(self.symbols@);
        let mut s = "Symbol Table:\n".to_owned();
        if self.symbols.len() == 0 {
            s.append("    No Entries\n");
            return s;
        }
        s.append("[\n");
        let ghost head = s@;
        let n = self.symbols.len();
        let mut i: usize = 0;
        while i < n
            invariant
                syms == symbols_of(self.symbols@),
                n == self.symbols@.len(),
                n == syms.len(),
                i <= n,
                s@ == head + symbol_rows(self.strings, syms.subrange(0, i as int), n as int),
            decreases n - i,
        {
            s.append("    {\n");
            append_symbol_fields(&mut s, &self.strings, i, &self.symbols[i].symbol);
            if i < n - 1 {
                s.append("    },\n");
            } else {
                s.append("    }\n");
            }
            assert(syms.subrange(0, i + 1).drop_last() =~= syms.subrange(0, i as int));
            i = i + 1;
        }
        assert(syms.subrange(0, i as int) =~= syms);
        s.append("]\n");
        s
    }
}

/// How byte `b` shows in the text column of a dump: itself when printable
/// ASCII (`0x20` to `0x7e`), else a dot.
pub open spec fn printable(b: u8) -> char {
    if 0x20 <= b < 0x7f {
        b as char
    } else {
        '.'
    }
}

/// The text of byte `b` in the text column of a dump.
fn printable_text(b: u8) -> (r: &'static str)
    ensures
        r@ == seq![printable(b)],
{
    match b {
        0x20 => {
            proof {
                reveal_strlit(" ");
            }
            " "
        },
        0x21 => {
            proof {
                reveal_strlit("!");
            }
            "!"
        },
        0x22 => {
            proof {
                reveal_strlit("\"");
            }
            "\""
        },
        0x23 => {
            proof {
                reveal_strlit("#");
            }
            "#"
        },
        0x24 => {
            proof {
                reveal_strlit("$");
            }
            "$"
        },
        0x25 => {
            proof {
                reveal_strlit("%");
            }
            "%"
        },
        0x26 => {
            proof {
                reveal_strlit("&");
            }
            "&"
        },
        0x27 => {
            proof {
                reveal_strlit("'");
            }
            "'"
        },
        0x28 => {
            proof {
                reveal_strlit("(");
            }
            "("
        },
        0x29 => {
            proof {
                reveal_strlit(")");
            }
            ")"
        },
        0x2A => {
            proof {
                reveal_strlit("*");
            }
            "*"
        },
        0x2B => {
            proof {
                reveal_strlit("+");
            }
            "+"
        },
        0x2C => {
            proof {
                reveal_strlit(",");
            }
            ","
        },
        0x2D => {
            proof {
                reveal_strlit("-");
            }
            "-"
        },
        0x2E => {
            proof {
                reveal_strlit(".");
            }
            "."
        },
        0x2F => {
            proof {
                reveal_strlit("/");
            }
            "/"
        },
        0x30 => {
            proof {
                reveal_strlit("0");
            }
            "0"
        },
        0x31 => {
            proof {
                reveal_strlit("1");
            }
            "1"
        },
        0x32 => {
            proof {
                reveal_strlit("2");
            }
            "2"
        },
        0x33 => {
            proof {
                reveal_strlit("3");
            }
            "3"
        },
        0x34 => {
            proof {
                reveal_strlit("4");
            }
            "4"
        },
        0x35 => {
            proof {
                reveal_strlit("5");
            }
            "5"
        },
        0x36 => {
            proof {
                reveal_strlit("6");
            }
            "6"
        },
        0x37 => {
            proof {
                reveal_strlit("7");
            }
            "7"
        },
        0x38 => {
            proof {
                reveal_strlit("8");
            }
            "8"
        },
        0x39 => {
            proof {
                reveal_strlit("9");
            }
            "9"
        },
        0x3A => {
            proof {
                reveal_strlit(":");
            }
            ":"
        },
        0x3B => {
            proof {
                reveal_strlit(";");
            }
            ";"
        },
        0x3C => {
            proof {
                reveal_strlit("<");
            }
            "<"
        },
        0x3D => {
            proof {
                reveal_strlit("=");
            }
            "="
        },
        0x3E => {
            proof {
                reveal_strlit(">");
            }
            ">"
        },
        0x3F => {
            proof {
                reveal_strlit("?");
            }
            "?"
        },
        0x40 => {
            proof {
                reveal_strlit("@");
            }
            "@"
        },
        0x41 => {
            proof {
                reveal_strlit("A");
            }
            "A"
        },
        0x42 => {
            proof {
                reveal_strlit("B");
            }
            "B"
        },
        0x43 => {
            proof {
                reveal_strlit("C");
            }
            "C"
        },
        0x44 => {
            proof {
                reveal_strlit("D");
            }
            "D"
        },
        0x45 => {
            proof {
                reveal_strlit("E");
            }
            "E"
        },
        0x46 => {
            proof {
                reveal_strlit("F");
            }
            "F"
        },
        0x47 => {
            proof {
                reveal_strlit("G");
            }
            "G"
        },
        0x48 => {
            proof {
                reveal_strlit("H");
            }
            "H"
        },
        0x49 => {
            proof {
                reveal_strlit("I");
            }
            "I"
        },
        0x4A => {
            proof {
                reveal_strlit("J");
            }
            "J"
        },
        0x4B => {
            proof {
                reveal_strlit("K");
            }
            "K"
        },
        0x4C => {
            proof {
                reveal_strlit("L");
            }
            "L"
        },
        0x4D => {
            proof {
                reveal_strlit("M");
            }
            "M"
        },
        0x4E => {
            proof {
                reveal_strlit("N");
            }
            "N"
        },
        0x4F => {
            proof {
                reveal_strlit("O");
            }
            "O"
        },
        0x50 => {
            proof {
                reveal_strlit("P");
            }
            "P"
        },
        0x51 => {
            proof {
                reveal_strlit("Q");
            }
            "Q"
        },
        0x52 => {
            proof {
                reveal_strlit("R");
            }
            "R"
        },
        0x53 => {
            proof {
                reveal_strlit("S");
            }
            "S"
        },
        0x54 => {
            proof {
                reveal_strlit("T");
            }
            "T"
        },
        0x55 => {
            proof {
                reveal_strlit("U");
            }
            "U"
        },
        0x56 => {
            proof {
                reveal_strlit("V");
            }
            "V"
        },
        0x57 => {
            proof {
                reveal_strlit("W");
            }
            "W"
        },
        0x58 => {
            proof {
                reveal_strlit("X");
            }
            "X"
        },
        0x59 => {
            proof {
                reveal_strlit("Y");
            }
            "Y"
        },
        0x5A => {
            proof {
                reveal_strlit("Z");
            }
            "Z"
        },
        0x5B => {
            proof {
                reveal_strlit("[");
            }
            "["
        },
        0x5C => {
            proof {
                reveal_strlit("\\");
            }
            "\\"
        },
        0x5D => {
            proof {
                reveal_strlit("]");
            }
            "]"
        },
        0x5E => {
            proof {
                reveal_strlit("^");
            }
            "^"
        },
        0x5F => {
            proof {
                reveal_strlit("_");
            }
            "_"
        },
        0x60 => {
            proof {
                reveal_strlit("`");
            }
            "`"
        },
        0x61 => {
            proof {
                reveal_strlit("a");
            }
            "a"
        },
        0x62 => {
            proof {
                reveal_strlit("b");
            }
            "b"
        },
        0x63 => {
            proof {
                reveal_strlit("c");
            }
            "c"
        },
        0x64 => {
            proof {
                reveal_strlit("d");
            }
            "d"
        },
        0x65 => {
            proof {
                reveal_strlit("e");
            }
            "e"
        },
        0x66 => {
            proof {
                reveal_strlit("f");
            }
            "f"
        },
        0x67 => {
            proof {
                reveal_strlit("g");
            }
            "g"
        },
        0x68 => {
            proof {
                reveal_strlit("h");
            }
            "h"
        },
        0x69 => {
            proof {
                reveal_strlit("i");
            }
            "i"
        },
        0x6A => {
            proof {
                reveal_strlit("j");
            }
            "j"
        },
        0x6B => {
            proof {
                reveal_strlit("k");
            }
            "k"
        },
        0x6C => {
            proof {
                reveal_strlit("l");
            }
            "l"
        },
        0x6D => {
            proof {
                reveal_strlit("m");
            }
            "m"
        },
        0x6E => {
            proof {
                reveal_strlit("n");
            }
            "n"
        },
        0x6F => {
            proof {
                reveal_strlit("o");
            }
            "o"
        },
        0x70 => {
            proof {
                reveal_strlit("p");
            }
            "p"
        },
        0x71 => {
            proof {
                reveal_strlit("q");
            }
            "q"
        },
        0x72 => {
            proof {
                reveal_strlit("r");
            }
            "r"
        },
        0x73 => {
            proof {
                reveal_strlit("s");
            }
            "s"
        },
        0x74 => {
            proof {
                reveal_strlit("t");
            }
            "t"
        },
        0x75 => {
            proof {
                reveal_strlit("u");
            }
            "u"
        },
        0x76 => {
            proof {
                reveal_strlit("v");
            }
            "v"
        },
        0x77 => {
            proof {
                reveal_strlit("w");
            }
            "w"
        },
        0x78 => {
            proof {
                reveal_strlit("x");
            }
            "x"
        },
        0x79 => {
            proof {
                reveal_strlit("y");
            }
            "y"
        },
        0x7A => {
            proof {
                reveal_strlit("z");
            }
            "z"
        },
        0x7B => {
            proof {
                reveal_strlit("{");
            }
            "{"
        },
        0x7C => {
            proof {
                reveal_strlit("|");
            }
            "|"
        },
        0x7D => {
            proof {
                reveal_strlit("}");
            }
            "}"
        },
        0x7E => {
            proof {
                reveal_strlit("~");
            }
            "~"
        },
        _ => {
            proof {
                reveal_strlit(".");
            }
            "."
        },
    }
}

/// The hexadecimal cell of byte `b`, number `k` of its row: two digits and a
/// space, and two more spaces after the eighth.
pub open spec fn hex_cell(b: u8, k: int) -> Seq<char> {
    zero_padded(hex_digits(b as nat), 2) + " "@ + when((k + 1) % 8 == 0 && (k + 1) % 16 != 0, "  "@)
}

/// The hexadecimal cells of the bytes `bs` of a row.
pub open spec fn hex_cells(bs: Seq<u8>) -> Seq<char>
    decreases bs.len(),
{
    if bs.len() == 0 {
        Seq::empty()
    } else {
        hex_cells(bs.drop_last()) + hex_cell(bs.last(), bs.len() - 1)
    }
}

/// The text column of the bytes `bs` of a row.
pub open spec fn text_cells(bs: Seq<u8>) -> Seq<char> {
    bs.map_values(|b: u8| printable(b))
}

/// The dump row of the bytes `bs`, which start at offset `start` of a section
/// at virtual address `vaddr`. A short last row is padded so that its text
/// column lines up with those of full rows.
pub open spec fn row_text(vaddr: u32, start: int, bs: Seq<u8>) -> Seq<char> {
    let spaces = 16 - bs.len();
    "        "@ + zero_padded(hex_digits(((vaddr + start) % 0x1_0000_0000) as nat), 8) + ":   "@ + hex_cells(bs) + repeat(
        ' ',
        3 * spaces,
    ) + when(spaces > 8, "  "@) + "  | "@ + text_cells(bs) + repeat(' ', spaces) + " |\n"@
}

/// The first `n` rows of the dump of `data`, sixteen bytes to a row.
pub open spec fn rows_text(data: Seq<u8>, vaddr: u32, n: int) -> Seq<char>
    decreases n,
{
    if n <= 0 {
        Seq::empty()
    } else {
        let start = 16 * (n - 1);
        let end = if 16 * n <= data.len() {
            16 * n
        } else {
            data.len() as int
        };
        rows_text(data, vaddr, n - 1) + row_text(vaddr, start, data.subrange(start, end))
    }
}

/// The dump of the data of a section named `name` at virtual address `vaddr`,
/// number `sec_num`.
pub open spec fn section_data_text(sec_num: int, name: Seq<char>, vaddr: u32, data: Seq<u8>) -> Seq<char> {
    "    Section Data (number "@ + dec_digits(sec_num as nat) + ", name "@ + name + "):\n"@ + if data.len() == 0 {
        "        No Data.\n"@
    } else {
        rows_text(data, vaddr, ((data.len() + 15) / 16) as int)
    }
}

/// The hexadecimal cells of the bytes of a row.
fn hex_cells_text(bs: &[u8]) -> (r: String)
    ensures
        r@ == hex_cells(bs@),
{
    let mut s = String::new();
    let mut k: usize = 0;
    while k < bs.len()
        invariant
            k <= bs@.len(),
            s@ == hex_cells(bs@.subrange(0, k as int)),
        decreases bs@.len() - k,
    {
        s.append(hex_padded(bs[k] as u64, 2).as_str());
        s.append(" ");
        append_when(&mut s, (k + 1) % 8 == 0 && (k + 1) % 16 != 0, "  ");
        assert(bs@.subrange(0, k + 1).drop_last() =~= bs@.subrange(0, k as int));
        k = k + 1;
    }
    assert(bs@.subrange(0, k as int) =~= bs@);
    s
}

/// The text column of the bytes of a row.
fn text_cells_text(bs: &[u8]) -> (r: String)
    ensures
        r@ == text_cells(bs@),
{
    let mut s = String::new();
    let mut k: usize = 0;
    while k < bs.len()
        invariant
            k <= bs@.len(),
            s@ == text_cells(bs@.subrange(0, k as int)),
        decreases bs@.len() - k,
    {
        s.append(printable_text(bs[k]));
        assert(text_cells(bs@.subrange(0, k + 1)) =~= text_cells(bs@.subrange(0, k as int)) + seq![printable(bs@[k as int])]);
        k = k + 1;
    }
    assert(bs@.subrange(0, k as int) =~= bs@);
    s
}

/// `n` spaces.
fn spaces_text(n: usize) -> (r: String)
    ensures
        r@ == repeat(' ', n as int),
{
    let mut s = String::new();
    proof {
        reveal_strlit(" ");
        assert(" "@ =~= seq![' ']);
    }
    append_repeat_space(&mut s, n);
    assert(s@ =~= repeat(' ', n as int));
    s
}

/// Appends `n` spaces to `s`.
fn append_repeat_space(s: &mut String, n: usize)
    requires
        " "@ == seq![' '],
    ensures
        final(s)@ == old(s)@ + repeat(' ', n as int),
{
    let mut k: usize = 0;
    while k < n
        invariant
            " "@ == seq![' '],
            k <= n,
            s@ == old(s)@ + repeat(' ', k as int),
        decreases n - k,
    {
        s.append(" ");
        k = k + 1;
        assert(s@ =~= old(s)@ + repeat(' ', k as int));
    }
}

/// The dump row of the bytes `bs`, starting at offset `start` of a section at `vaddr`.
fn row_text_of(vaddr: u32, start: usize, bs: &[u8]) -> (r: String)
    requires
        1 <= bs@.len() <= 16,
    ensures
        r@ == row_text(vaddr, start as int, bs@),
{
    let spaces = 16 - bs.len();
    let low = ((start as u64) % 0x1_0000_0000) as u32;
    let addr = vaddr.wrapping_add(low);
    proof {
        let m: int = 0x1_0000_0000;
        assert(low as int == start as int % m);
        assert(addr as int == (vaddr as int + low as int) % m);
        vstd::arithmetic::div_mod::lemma_add_mod_noop(vaddr as int, start as int, m);
        vstd::arithmetic::div_mod::lemma_mod_twice(vaddr as int, m);
        assert((vaddr as int) % m == vaddr as int);
        assert(addr as int == (vaddr + start) % m);
    }
    let mut s = "        ".to_owned();
    s.append(hex_padded(addr as u64, 8).as_str());
    s.append(":   ");
    s.append(hex_cells_text(bs).as_str());
    s.append(spaces_text(3 * spaces).as_str());
    append_when(&mut s, spaces > 8, "  ");
    s.append("  | ");
    s.append(text_cells_text(bs).as_str());
    s.append(spaces_text(spaces).as_str());
    s.append(" |\n");
    s
}

impl FileContainer {
    /// The hexadecimal and text dump of the data of section `sec_num`,
    /// sixteen bytes to a row, each row headed by its virtual address.
    pub fn dump_section_data(&self, sec_num: usize) -> (r: Result<String, OffsetError>)
        ensures
            sec_num < self.sections@.len() ==> (r matches Ok(t) && t@ == section_data_text(
                sec_num as int,
                text_or_unknown(c_bytes(self.sections@[sec_num as int].header.name@)),
                self.sections@[sec_num as int].header.vaddr,
                self.sections@[sec_num as int].data@,
            )),
            sec_num >= self.sections@.len() ==> r == Err::<String, OffsetError>(OffsetError),
    {
        if sec_num >= self.sections.len() {
            return Err(OffsetError);
        }
        let section = &self.sections[sec_num];
        let mut s = "    Section Data (number ".to_owned();
        s.append(dec_string(sec_num as u64).as_str());
        s.append(", name ");
        s.append(c_text_or_unknown(&section.header.name).as_str());
        s.append("):\n");
        let data = &section.data;
        if data.len() == 0 {
            s.append("        No Data.\n");
            return Ok(s);
        }
        let ghost head = s@;
        let vaddr = section.header.vaddr;
        let n = data.len();
        let mut start: usize = 0;
        let mut row: usize = 0;
        while start < n
            invariant
                n == data@.len(),
                start == if 16 * row <= n {
                    16 * row
                } else {
                    n as int
                },
                16 * row <= n + 15,
                s@ == head + rows_text(data@, vaddr, row as int),
            decreases n - start,
        {
            let end = if n - start >= 16 {
                start + 16
            } else {
                n
            };
            s.append(row_text_of(vaddr, start, &data.as_slice()[start..end]).as_str());
            start = end;
            row = row + 1;
        }
        assert((n + 15) / 16 == row);
        Ok(s)
    }
}

} // verus!
