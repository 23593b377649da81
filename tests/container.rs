use we32dis::coff::{StorageClass, F_EXEC};
use we32dis::container::FileContainer;
use we32dis::errors::{CoffError, OffsetError};
use we32dis::symbol::Symbol;

fn be16(v: &mut Vec<u8>, x: u16) {
    v.extend_from_slice(&x.to_be_bytes());
}

fn be32(v: &mut Vec<u8>, x: u32) {
    v.extend_from_slice(&x.to_be_bytes());
}

fn file_header(v: &mut Vec<u8>, nsec: u16, symoff: u32, nsyms: u32, opt: u16, flags: u16) {
    be16(v, 0x0170);
    be16(v, nsec);
    be32(v, 0);
    be32(v, symoff);
    be32(v, nsyms);
    be16(v, opt);
    be16(v, flags);
}

fn primary(v: &mut Vec<u8>, zeroes: u32, offset: u32, sclass: u8, numaux: u8) {
    be32(v, zeroes);
    be32(v, offset);
    be32(v, 0x1234);
    be16(v, 0xFFFF);
    be16(v, 0x20);
    v.push(sclass);
    v.push(numaux);
}

fn one_section_file() -> Vec<u8> {
    let mut v = Vec::new();
    file_header(&mut v, 1, 0, 0, 0, 0);
    v.extend_from_slice(b".text\0\0\0");
    be32(&mut v, 0);
    be32(&mut v, 0x100);
    be32(&mut v, 3);
    be32(&mut v, 70);
    be32(&mut v, 60);
    be32(&mut v, 0);
    be16(&mut v, 1);
    be16(&mut v, 0);
    be32(&mut v, 0x20);
    assert_eq!(v.len(), 60);
    be32(&mut v, 0x10);
    be32(&mut v, 5);
    be16(&mut v, 6);
    v.extend_from_slice(&[0x41, 0x42, 0x00]);
    be32(&mut v, 4);
    v
}

#[test]
fn header_rejection() {
    let buf = [0u8; 20];
    assert_eq!(FileContainer::read(&buf).err(), Some(CoffError::BadFileHeader));
}

#[test]
fn short_header_is_rejected() {
    let buf = [0x01u8, 0x70, 0, 0];
    assert_eq!(FileContainer::read(&buf).err(), Some(CoffError::BadFileHeader));
}

#[test]
fn minimal_header_accept() {
    let mut v = Vec::new();
    file_header(&mut v, 0, 0, 0, 0, F_EXEC);
    be32(&mut v, 4);
    let c = FileContainer::read(&v).ok().unwrap();
    assert!(c.header.executable());
    assert!(!c.header.mau_required());
    assert!(c.sections.is_empty());
    assert!(c.symbols.is_empty());
    assert!(c.opt_header.is_none());
    assert_eq!(c.strings.data_size, 4);
    assert!(c.strings.strings.is_empty());
    assert_eq!(c.dump_strings_table(), "Strings Table:\n    No Strings\n");
    assert_eq!(c.dump_symbol_table(), "Symbol Table:\n    No Entries\n");
}

#[test]
fn missing_optional_header() {
    let mut v = Vec::new();
    file_header(&mut v, 0, 0, 0, 28, 0);
    assert_eq!(FileContainer::read(&v).err(), Some(CoffError::BadOptionalHeader));
}

#[test]
fn optional_header_is_read() {
    let mut v = Vec::new();
    file_header(&mut v, 0, 0, 0, 28, 0);
    be16(&mut v, 0x010b);
    be16(&mut v, 1);
    for x in [0x10u32, 0x20, 0x30, 0x40, 0x50, 0x60] {
        be32(&mut v, x);
    }
    be32(&mut v, 4);
    let c = FileContainer::read(&v).ok().unwrap();
    let o = c.opt_header.unwrap();
    assert_eq!(o.magic, 0x010b);
    assert_eq!(o.entry_point, 0x40);
    assert_eq!(o.data_start, 0x60);
    assert!(o.describe().contains("    Entry Point:     0x40\n"));
}

#[test]
fn missing_sections() {
    let mut v = Vec::new();
    file_header(&mut v, 1, 0, 0, 0, 0);
    assert_eq!(FileContainer::read(&v).err(), Some(CoffError::BadSections));
}

#[test]
fn section_data_out_of_bounds() {
    let mut v = one_section_file();
    v.truncate(71);
    assert_eq!(FileContainer::read(&v).err(), Some(CoffError::BadSections));
}

#[test]
fn missing_symbols() {
    let mut v = Vec::new();
    file_header(&mut v, 0, 20, 2, 0, 0);
    primary(&mut v, 0, 4, 2, 0);
    assert_eq!(FileContainer::read(&v).err(), Some(CoffError::BadSymbols));
}

#[test]
fn missing_strings() {
    let mut v = Vec::new();
    file_header(&mut v, 0, 0, 0, 0, 0);
    assert_eq!(FileContainer::read(&v).err(), Some(CoffError::BadStrings));
    be32(&mut v, 12);
    v.extend_from_slice(b"ab\0");
    assert_eq!(FileContainer::read(&v).err(), Some(CoffError::BadStrings));
}

#[test]
fn section_with_relocation_and_data() {
    let v = one_section_file();
    let c = FileContainer::read(&v).ok().unwrap();
    assert_eq!(c.sections.len(), 1);
    let s = &c.sections[0];
    assert_eq!(s.header.vaddr, 0x100);
    assert_eq!(s.data, vec![0x41, 0x42, 0x00]);
    assert_eq!(s.relocation_table.len(), 1);
    assert_eq!(s.relocation_table[0].vaddr, 0x10);
    assert_eq!(s.relocation_table[0].symndx, 5);
    assert_eq!(s.relocation_table[0].rtype, 6);
    assert_eq!(c.section_data(0), Some(&vec![0x41, 0x42, 0x00]));
    assert_eq!(c.section_data(1), None);
    assert!(s.header.describe().contains("    Name:              .text\n"));
}

#[test]
fn relocation_dump() {
    let c = FileContainer::read(&one_section_file()).ok().unwrap();
    assert_eq!(
        c.dump_relocation_table(0).ok().unwrap(),
        "    Relocation Table:\n        Num    Vaddr       Symndx  Type\n        -----  ----------  ------  ----\n        [000]  0x00000010       5    6\n"
    );
    assert_eq!(c.dump_relocation_table(1).err(), Some(OffsetError));
}

#[test]
fn section_data_dump() {
    let c = FileContainer::read(&one_section_file()).ok().unwrap();
    let expected = format!(
        "    Section Data (number 0, name .text):\n        00000100:   41 42 00 {}    | AB.{} |\n",
        " ".repeat(39),
        " ".repeat(13)
    );
    assert_eq!(c.dump_section_data(0).ok().unwrap(), expected);
    assert_eq!(c.dump_section_data(3).err(), Some(OffsetError));
}

#[test]
fn full_row_dump() {
    let mut v = one_section_file();
    // Grow the section to sixteen bytes of data.
    v[36..40].copy_from_slice(&16u32.to_be_bytes());
    v.truncate(70);
    v.extend_from_slice(b"0123456789abcdef");
    be32(&mut v, 4);
    let c = FileContainer::read(&v).ok().unwrap();
    assert_eq!(
        c.dump_section_data(0).ok().unwrap(),
        "    Section Data (number 0, name .text):\n        00000100:   30 31 32 33 34 35 36 37   38 39 61 62 63 64 65 66   | 0123456789abcdef |\n"
    );
}

#[test]
fn symbol_and_string() {
    let mut v = Vec::new();
    file_header(&mut v, 0, 20, 1, 0, 0);
    primary(&mut v, 0, 4, 2, 0);
    be32(&mut v, 9);
    v.extend_from_slice(b"main\0");
    let c = FileContainer::read(&v).ok().unwrap();
    assert_eq!(c.symbols.len(), 1);
    assert_eq!(c.strings.string_at(4), Some("main".to_string()));
    assert_eq!(c.strings.string_at(0), Some(String::new()));
    assert_eq!(c.strings.strings, vec![(4u32, "main".to_string())]);
    let dump = c.dump_symbol_table();
    assert!(dump.contains("        name: 'main',\n"));
    assert!(dump.contains("        section: -1,\n"));
    assert!(dump.contains("        class: 'external symbol',\n"));
    assert_eq!(c.dump_strings_table(), "Strings Table:\n    [   4]    main\n");
}

#[test]
fn inline_name_and_auxiliary_filename() {
    let mut v = Vec::new();
    file_header(&mut v, 0, 20, 3, 0, 0);
    v.extend_from_slice(b".file\0\0\0");
    be32(&mut v, 0);
    be16(&mut v, 0xFFFE);
    be16(&mut v, 0);
    v.push(103);
    v.push(1);
    let mut aux = b"hello.c".to_vec();
    aux.resize(18, 0);
    v.extend_from_slice(&aux);
    primary(&mut v, 0, 4, 0xFF, 0);
    be32(&mut v, 4);
    let c = FileContainer::read(&v).ok().unwrap();
    assert_eq!(c.symbols.len(), 3);
    match &c.symbols[0].symbol {
        Symbol::Primary { storage_class, n_numaux, .. } => {
            assert_eq!(*storage_class, StorageClass::Filename);
            assert_eq!(*n_numaux, 1);
        }
        _ => panic!("expected a primary symbol"),
    }
    match &c.symbols[1].symbol {
        Symbol::Auxiliary { x_fname, .. } => assert_eq!(x_fname.as_deref(), Some("hello.c")),
        _ => panic!("expected an auxiliary symbol"),
    }
    match &c.symbols[2].symbol {
        Symbol::Primary { storage_class, .. } => assert_eq!(*storage_class, StorageClass::EndOfFunction),
        _ => panic!("expected a primary symbol"),
    }
    let dump = c.dump_symbol_table();
    assert!(dump.contains("        name: '.file',\n"));
    assert!(dump.contains("        filename: 'hello.c',\n"));
    assert!(dump.contains("        index: 2,\n"));
    assert!(dump.ends_with("    }\n]\n"));
}

#[test]
fn auxiliary_records_follow_their_primary() {
    let mut v = Vec::new();
    file_header(&mut v, 0, 20, 4, 0, 0);
    primary(&mut v, 0, 4, 2, 2);
    let mut aux = vec![0u8; 18];
    aux[0..4].copy_from_slice(&7u32.to_be_bytes());
    aux[4..6].copy_from_slice(&3u16.to_be_bytes());
    v.extend_from_slice(&aux);
    v.extend_from_slice(&aux);
    primary(&mut v, 0, 4, 3, 0);
    be32(&mut v, 4);
    let c = FileContainer::read(&v).ok().unwrap();
    assert!(matches!(c.symbols[0].symbol, Symbol::Primary { .. }));
    for i in 1..3 {
        match &c.symbols[i].symbol {
            Symbol::Auxiliary { x_fname, x_tagndx, x_lnno, .. } => {
                assert!(x_fname.is_none());
                assert_eq!(*x_tagndx, 7);
                assert_eq!(*x_lnno, 3);
            }
            _ => panic!("expected an auxiliary symbol"),
        }
    }
    assert!(matches!(c.symbols[3].symbol, Symbol::Primary { .. }));
}

#[test]
fn unknown_storage_class_is_null() {
    assert_eq!(StorageClass::from_code(42), StorageClass::Null);
    assert_eq!(StorageClass::from_code(-1), StorageClass::EndOfFunction);
    assert_eq!(StorageClass::from_code(106), StorageClass::Hidden);
    assert_eq!(StorageClass::Alias.description(), "duplicated tag");
}

#[test]
fn header_description_uses_utc_date() {
    let mut v = Vec::new();
    file_header(&mut v, 0, 0, 0, 0, 0x2002);
    be32(&mut v, 4);
    let c = FileContainer::read(&v).ok().unwrap();
    let text = c.header.describe();
    assert!(text.starts_with("COFF File Header:\nWE32000 executable not stripped, 32100 required.\n"));
    assert!(text.contains("    Date:          Thu, 1 Jan 1970 00:00:00 +0000\n"));
    assert!(text.ends_with("    Flags:         0x2002"));
}

#[test]
fn invalid_utf8_names() {
    let mut v = Vec::new();
    file_header(&mut v, 0, 0, 0, 0, 0);
    be32(&mut v, 8);
    v.extend_from_slice(&[0xFF, 0xFE, 0x00, 0x00]);
    let c = FileContainer::read(&v).ok().unwrap();
    assert_eq!(c.strings.string_at(4), None);
    assert_eq!(c.strings.string_at(100), None);
    assert_eq!(c.strings.strings[0], (4u32, "???".to_string()));
}
