use vstd::prelude::*;

use crate::coff::{
    file_header_at, optional_header_at, relocation_at, section_header_at, FileHeader, OptionalHeader,
    RelocationEntry, SectionHeader, StorageClass, FILE_HEADER_SIZE, MAGIC_WE32K, MAGIC_WE32K_TV,
};
use crate::cursor::{avail, ByteCursor};
use crate::errors::CoffError;
use crate::strtab::{table_readable, StringTable};
use crate::symbol::{
    lemma_auxiliary_origin, lemma_declared_auxiliaries, primary_of,
    next_state, state_before, symbol_matches, symbol_record, symbols_match, Symbol, SymbolState, SymbolTableEntry,
    SYMBOL_SIZE,
};

verus! {

/// A section: its header, its relocation entries and its raw data.
#[derive(Clone, Debug, PartialEq, Eq)]
pub struct Section {
    pub header: SectionHeader,
    pub relocation_table: Vec<RelocationEntry>,
    pub data: Vec<u8>,
}

/// The headers of the `n` sections whose table starts at `base`.
pub open spec fn section_headers_at(s: Seq<u8>, base: int, n: int) -> Seq<SectionHeader> {
    Seq::new(n as nat, |i: int| section_header_at(s, base + 40 * i))
}

proof fn lemma_header_index(s: Seq<u8>, base: int, n: int, i: int)
    requires
        0 <= i < n,
    ensures
        section_headers_at(s, base, n)[i] == section_header_at(s, base + 40 * i),
{
}

/// The relocation entries and the data of the section of header `h` can be read.
pub open spec fn payload_readable(s: Seq<u8>, h: SectionHeader) -> bool {
    &&& h.nreloc > 0 ==> avail(s, h.relptr as int, 10 * h.nreloc)
    &&& h.size > 0 ==> avail(s, h.scnptr as int, h.size as int)
}

/// The `n` sections whose table starts at `base` can be read.
pub open spec fn sections_readable(s: Seq<u8>, base: int, n: int) -> bool {
    &&& n > 0 ==> avail(s, base, 40 * n)
    &&& forall|i: int| 0 <= i < n ==> payload_readable(s, #[trigger] section_headers_at(s, base, n)[i])
}

/// `sec` is the section of header `h`.
pub open spec fn section_matches(sec: Section, s: Seq<u8>, h: SectionHeader) -> bool {
    &&& sec.header == h
    &&& sec.relocation_table@.len() == h.nreloc
    &&& forall|j: int|
        0 <= j < h.nreloc ==> #[trigger] sec.relocation_table@[j] == relocation_at(s, h.relptr + 10 * j)
    &&& sec.data@ == if h.size > 0 {
        s.subrange(h.scnptr as int, h.scnptr + h.size)
    } else {
        Seq::empty()
    }
}

/// Where reading the section of header `h` leaves the cursor, from `pos`.
pub open spec fn section_end(h: SectionHeader, pos: int) -> int {
    if h.size > 0 {
        h.scnptr + h.size
    } else if h.nreloc > 0 {
        h.relptr + 10 * h.nreloc
    } else {
        pos
    }
}

/// Where reading the sections of headers `hs` leaves the cursor, from `pos`.
pub open spec fn sections_end(hs: Seq<SectionHeader>, pos: int) -> int
    decreases hs.len(),
{
    if hs.len() == 0 {
        pos
    } else {
        section_end(hs.last(), sections_end(hs.drop_last(), pos))
    }
}

/// Where the section table starts, after the file header and the optional header.
pub open spec fn section_table_start(h: FileHeader) -> int {
    FILE_HEADER_SIZE + h.opt_header
}

/// Where the string table of a file with header `h` starts: just past the
/// symbol table, or where reading the sections ended when there are no symbols.
pub open spec fn string_table_start(s: Seq<u8>, h: FileHeader) -> int {
    let base = section_table_start(h);
    if h.symbol_count > 0 {
        h.symbol_table_offset + 18 * h.symbol_count
    } else {
        sections_end(section_headers_at(s, base, h.section_count as int), base + 40 * h.section_count)
    }
}

/// The magic number is one of the two WE32000 magics.
pub open spec fn magic_ok(h: FileHeader) -> bool {
    h.magic == MAGIC_WE32K || h.magic == MAGIC_WE32K_TV
}

/// The error that reading the container `s` meets first, if any.
pub open spec fn container_error(s: Seq<u8>) -> Option<CoffError> {
    let h = file_header_at(s, 0);
    let base = section_table_start(h);
    if !avail(s, 0, 20) || !magic_ok(h) {
        Some(CoffError::BadFileHeader)
    } else if h.opt_header > 0 && !avail(s, 20, 28) {
        Some(CoffError::BadOptionalHeader)
    } else if !sections_readable(s, base, h.section_count as int) {
        Some(CoffError::BadSections)
    } else if h.symbol_count > 0 && !avail(s, h.symbol_table_offset as int, 18 * h.symbol_count) {
        Some(CoffError::BadSymbols)
    } else if !table_readable(s, string_table_start(s, h)) {
        Some(CoffError::BadStrings)
    } else {
        None
    }
}

/// A decoded COFF file.
pub struct FileContainer {
    pub header: FileHeader,
    pub opt_header: Option<OptionalHeader>,
    pub sections: Vec<Section>,
    pub symbols: Vec<SymbolTableEntry>,
    pub strings: StringTable,
}

impl FileContainer {
    /// `self` is what the file `s` holds.
    pub open spec fn read_from(&self, s: Seq<u8>) -> bool {
        let h = file_header_at(s, 0);
        let base = section_table_start(h);
        &&& self.header == h
        &&& self.opt_header == if h.opt_header > 0 {
            Some(optional_header_at(s, 20))
        } else {
            None
        }
        &&& self.sections@.len() == h.section_count
        &&& forall|i: int|
            0 <= i < h.section_count ==> section_matches(
                #[trigger] self.sections@[i],
                s,
                section_header_at(s, base + 40 * i),
            )
        &&& symbols_match(self.symbols@, s, h.symbol_table_offset as int, h.symbol_count as int)
        &&& self.strings.read_from(s, string_table_start(s, h))
        &&& self.strings.wf()
    }

    fn bad_metadata(header: &FileHeader) -> (r: bool)
        ensures
            r == !magic_ok(*header),
    {
        !(header.magic == MAGIC_WE32K || header.magic == MAGIC_WE32K_TV)
    }

    /// Reads the section headers at the cursor, then each section's
    /// relocation entries and data.
    fn read_sections(file_header: &FileHeader, cursor: &mut ByteCursor) -> (r: Option<Vec<Section>>)
        ensures
            final(cursor).data() == old(cursor).data(),
            ({
                let s = old(cursor).data();
                let base = old(cursor).pos();
                let n = file_header.section_count as int;
                if sections_readable(s, base, n) {
                    r matches Some(v) && v@.len() == n && (forall|i: int|
                        0 <= i < n ==> section_matches(#[trigger] v@[i], s, section_header_at(s, base + 40 * i)))
                        && final(cursor).pos() == sections_end(section_headers_at(s, base, n), base + 40 * n)
                } else {
                    r is None
                }
            }),
    {
        let ghost s = cursor.data();
        let ghost base = cursor.pos();
        let ghost hs = section_headers_at(s, base, file_header.section_count as int);
        let mut headers: Vec<SectionHeader> = Vec::new();
        let mut i: u16 = 0;
        while i < file_header.section_count
            invariant
                cursor.data() == s,
                s == old(cursor).data(),
                base == old(cursor).pos(),
                hs == section_headers_at(s, base, file_header.section_count as int),
                hs.len() == file_header.section_count,
                i <= file_header.section_count,
                i > 0 ==> avail(s, base, 40 * i),
                cursor.pos() == base + 40 * i,
                headers@ == hs.subrange(0, i as int),
            decreases file_header.section_count - i,
        {
            let h = match SectionHeader::read(cursor) {
                Some(h) => h,
                None => return None,
            };
            proof {
                lemma_header_index(s, base, file_header.section_count as int, i as int);
            }
            headers.push(h);
            i = i + 1;
            assert(headers@ =~= hs.subrange(0, i as int));
        }
        assert(headers@ =~= hs);
        let ghost n = file_header.section_count as int;
        let mut sections: Vec<Section> = Vec::new();
        let mut k: usize = 0;
        while k < headers.len()
            invariant
                cursor.data() == s,
                s == old(cursor).data(),
                base == old(cursor).pos(),
                n == file_header.section_count as int,
                hs == section_headers_at(s, base, n),
                headers@ == hs,
                hs.len() == n,
                n > 0 ==> avail(s, base, 40 * n),
                k <= n,
                sections@.len() == k,
                forall|i: int| 0 <= i < k ==> section_matches(#[trigger] sections@[i], s, hs[i]),
                forall|i: int| 0 <= i < k ==> payload_readable(s, #[trigger] hs[i]),
                cursor.pos() == sections_end(hs.subrange(0, k as int), base + 40 * n),
            decreases n - k,
        {
            let header = headers[k];
            let mut relocation_table: Vec<RelocationEntry> = Vec::new();
            let mut data: Vec<u8> = Vec::new();
            if header.nreloc > 0 {
                cursor.seek(header.relptr as usize);
                let mut j: u16 = 0;
                while j < header.nreloc
                    invariant
                        cursor.data() == s,
                        s == old(cursor).data(),
                        n == file_header.section_count as int,
                        base == old(cursor).pos(),
                        hs == section_headers_at(s, base, n),
                        hs.len() == n,
                        k < n,
                        header == hs[k as int],
                        j <= header.nreloc,
                        j > 0 ==> avail(s, header.relptr as int, 10 * j),
                        cursor.pos() == header.relptr + 10 * j,
                        relocation_table@.len() == j,
                        forall|x: int| 0 <= x < j ==> #[trigger] relocation_table@[x] == relocation_at(s, header.relptr + 10 * x),
                    decreases header.nreloc - j,
                {
                    let e = match RelocationEntry::read(cursor) {
                        Some(e) => e,
                        None => {
                            assert(!payload_readable(s, hs[k as int]));
                            return None;
                        },
                    };
                    relocation_table.push(e);
                    j = j + 1;
                }
            }
            if header.size > 0 {
                cursor.seek(header.scnptr as usize);
                data = match cursor.read_exact(header.size as usize) {
                    Some(d) => d,
                    None => {
                        assert(!payload_readable(s, hs[k as int]));
                        return None;
                    },
                };
            }
            assert(hs.subrange(0, k + 1).drop_last() =~= hs.subrange(0, k as int));
            sections.push(Section { header, relocation_table, data });
            k = k + 1;
        }
        assert(hs.subrange(0, n) =~= hs);
        assert(sections_readable(s, base, n));
        Some(sections)
    }

    /// Reads the symbol table that `header` points to, following the
    /// primary/auxiliary state from record to record.
    fn read_symbol_table(header: &FileHeader, cursor: &mut ByteCursor) -> (r: Option<Vec<SymbolTableEntry>>)
        ensures
            final(cursor).data() == old(cursor).data(),
            ({
                let s = old(cursor).data();
                let off = header.symbol_table_offset as int;
                let n = header.symbol_count as int;
                if n == 0 {
                    r matches Some(v) && v@.len() == 0 && final(cursor).pos() == old(cursor).pos()
                } else if avail(s, off, 18 * n) {
                    r matches Some(v) && symbols_match(v@, s, off, n) && final(cursor).pos() == off + 18 * n
                } else {
                    r is None
                }
            }),
    {
        let ghost s = cursor.data();
        let ghost off = header.symbol_table_offset as int;
        let mut symbols: Vec<SymbolTableEntry> = Vec::new();
        if header.symbol_count > 0 {
            cursor.seek(header.symbol_table_offset as usize);
            let mut is_aux = false;
            let mut aux_index: u8 = 0;
            let mut sclass = StorageClass::Null;
            let mut i: u32 = 0;
            while i < header.symbol_count
                invariant
                    cursor.data() == s,
                    s == old(cursor).data(),
                    off == header.symbol_table_offset as int,
                    i <= header.symbol_count,
                    i > 0 ==> avail(s, off, 18 * i),
                    cursor.pos() == off + 18 * i,
                    is_aux ==> aux_index >= 1,
                    (SymbolState { is_aux, remaining: aux_index, class: sclass }) == state_before(s, off, i as int),
                    symbols_match(symbols@, s, off, i as int),
                decreases header.symbol_count - i,
            {
                let ghost rec = symbol_record(s, off, i as int);
                let ghost at = cursor.pos();
                let symbol = match SymbolTableEntry::read_symbol(cursor, is_aux, &sclass) {
                    Some(sym) => sym,
                    None => {
                        assert(!avail(s, at, 18));
                        assert(at == off + 18 * i);
                        assert(!avail(s, off, 18 * header.symbol_count));
                        return None;
                    },
                };
                assert(symbol_matches(symbol, rec, is_aux, sclass));
                let ghost st = state_before(s, off, i as int);
                if is_aux {
                    aux_index = aux_index - 1;
                    if aux_index == 0 {
                        is_aux = false;
                    }
                } else {
                    match &symbol {
                        Symbol::Primary { n_numaux, storage_class, .. } => {
                            if *n_numaux > 0 {
                                is_aux = true;
                                aux_index = *n_numaux;
                                sclass = *storage_class;
                            }
                        },
                        _ => {},
                    }
                }
                assert((SymbolState { is_aux, remaining: aux_index, class: sclass }) == next_state(st, rec));
                symbols.push(SymbolTableEntry { symbol });
                i = i + 1;
            }
        }
        Some(symbols)
    }

    /// Reads a WE32100 COFF file: the file header, the optional header if
    /// there is one, the sections, the symbol table and the string table.
    /// The first region that cannot be read names the error.
    pub fn read(buf: &[u8]) -> (r: Result<FileContainer, CoffError>)
        ensures
            match container_error(buf@) {
                Some(e) => r == Err::<FileContainer, CoffError>(e),
                None => r matches Ok(c) && c.read_from(buf@),
            },
            r matches Ok(c) ==> c.sections@.len() == c.header.section_count && c.symbols@.len() == c.header.symbol_count,
            r matches Ok(c) ==> forall|i: int|
                0 <= i < c.sections@.len() ==> (#[trigger] c.sections@[i]).data@.len() == c.sections@[i].header.size
                    && c.sections@[i].relocation_table@.len() == c.sections@[i].header.nreloc,
    {
        let ghost s = buf@;
        let mut cursor = ByteCursor::new(buf);
        let header = match FileHeader::read(&mut cursor) {
            Some(h) => {
                if FileContainer::bad_metadata(&h) {
                    return Err(CoffError::BadFileHeader);
                }
                h
            },
            None => return Err(CoffError::BadFileHeader),
        };
        let opt_header = if header.opt_header > 0 {
            match OptionalHeader::read(&mut cursor) {
                Some(h) => Some(h),
                None => return Err(CoffError::BadOptionalHeader),
            }
        } else {
            None
        };
        cursor.seek(FILE_HEADER_SIZE + header.opt_header as usize);
        let sections = match FileContainer::read_sections(&header, &mut cursor) {
            Some(v) => v,
            None => return Err(CoffError::BadSections),
        };
        let symbols = match FileContainer::read_symbol_table(&header, &mut cursor) {
            Some(v) => v,
            None => return Err(CoffError::BadSymbols),
        };
        let strings = match StringTable::read(&mut cursor) {
            Some(t) => t,
            None => return Err(CoffError::BadStrings),
        };
        let c = FileContainer { header, opt_header, sections, symbols, strings };
        assert forall|i: int| 0 <= i < c.sections@.len() implies (#[trigger] c.sections@[i]).data@.len() == c.sections@[i].header.size by {
            let h = c.sections@[i].header;
            if h.size > 0 {
                assert(payload_readable(s, section_headers_at(s, section_table_start(header), header.section_count as int)[i]));
            }
        }
        Ok(c)
    }

    /// The data of section `sec_num`, if there is such a section.
    pub fn section_data(&self, sec_num: usize) -> (r: Option<&Vec<u8>>)
        ensures
            sec_num < self.sections@.len() ==> r == Some(&self.sections@[sec_num as int].data),
            sec_num >= self.sections@.len() ==> r is None,
    {
        if sec_num < self.sections.len() {
            Some(&self.sections[sec_num].data)
        } else {
            None
        }
    }
}

/// In a container read from `s`, the `k` symbols after a primary that
/// declares `k` auxiliaries are auxiliaries, as far as the table goes.
pub proof fn lemma_primary_followed_by_auxiliaries(c: FileContainer, s: Seq<u8>, i: int, j: int)
    requires
        c.read_from(s),
        0 <= i,
        1 <= j,
        i + j < c.symbols@.len(),
        c.symbols@[i].symbol matches Symbol::Primary { n_numaux, .. } && j <= n_numaux,
    ensures
        c.symbols@[i + j].symbol is Auxiliary,
{
    let off = c.header.symbol_table_offset as int;
    let n = c.header.symbol_count as int;
    assert(symbol_matches(c.symbols@[i].symbol, symbol_record(s, off, i), state_before(s, off, i).is_aux, state_before(s, off, i).class));
    assert(symbol_matches(c.symbols@[i + j].symbol, symbol_record(s, off, i + j), state_before(s, off, i + j).is_aux, state_before(s, off, i + j).class));
    assert(!state_before(s, off, i).is_aux);
    lemma_declared_auxiliaries(s, off, i, j);
}

/// In a container read from `s`, every auxiliary symbol has a primary `d`
/// places before it that declares at least `d` auxiliaries.
pub proof fn lemma_auxiliary_has_primary(c: FileContainer, s: Seq<u8>, i: int)
    requires
        c.read_from(s),
        0 <= i < c.symbols@.len(),
        c.symbols@[i].symbol is Auxiliary,
    ensures
        exists|d: int|
            1 <= d <= i && ((#[trigger] c.symbols@[i - d]).symbol matches Symbol::Primary { n_numaux, .. } && n_numaux >= d),
{
    let off = c.header.symbol_table_offset as int;
    assert(symbol_matches(c.symbols@[i].symbol, symbol_record(s, off, i), state_before(s, off, i).is_aux, state_before(s, off, i).class));
    assert(state_before(s, off, i).is_aux);
    let d = lemma_auxiliary_origin(s, off, i);
    assert(symbol_matches(c.symbols@[i - d].symbol, symbol_record(s, off, i - d), state_before(s, off, i - d).is_aux, state_before(s, off, i - d).class));
    assert(c.symbols@[i - d].symbol == primary_of(symbol_record(s, off, i - d)));
}

} // verus!
