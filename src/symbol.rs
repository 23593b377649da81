use vstd::prelude::*;

use crate::coff::{storage_class_of, StorageClass};
use crate::cursor::{avail, be16, be16_at, be32, be32_at, ByteCursor};
use crate::text::{c_bytes, c_text_or_unknown, text_or_unknown};

verus! {

/// Size in bytes of one symbol table record.
pub const SYMBOL_SIZE: usize = 18;

/// One record of the symbol table.
#[derive(Clone, Debug, PartialEq, Eq)]
pub enum Symbol {
    /// A symbol proper. `n_name` also holds `n_zeroes` and `n_offset`: when
    /// `n_zeroes` is 0 the name is the string at `n_offset` of the string
    /// table, otherwise the NUL-padded text of `n_name`.
    Primary {
        n_name: [u8; 8],
        n_zeroes: u32,
        n_offset: u32,
        n_value: u32,
        n_scnum: i16,
        n_type: u16,
        n_numaux: u8,
        storage_class: StorageClass,
    },
    /// Supplementary information on the primary before it. `x_fname` is set
    /// when that primary's class is `Filename`; every overlaid reading of the
    /// record is kept.
    Auxiliary {
        x_fname: Option<String>,
        x_tagndx: u32,
        x_lnno: u16,
        x_size: u16,
        x_fsize: u32,
        x_lnnoptr: u32,
        x_endndx: u32,
        x_dimen: [u16; 4],
        x_tvndx: u16,
    },
}

/// The primary symbol that the 18-byte record `rec` holds.
pub open spec fn primary_of(rec: Seq<u8>) -> Symbol {
    Symbol::Primary {
        n_name: [rec[0], rec[1], rec[2], rec[3], rec[4], rec[5], rec[6], rec[7]],
        n_zeroes: be32(rec, 0) as u32,
        n_offset: be32(rec, 4) as u32,
        n_value: be32(rec, 8) as u32,
        n_scnum: (be16(rec, 12) as u16) as i16,
        n_type: be16(rec, 14) as u16,
        n_numaux: rec[17],
        storage_class: storage_class_of(rec[16] as i8),
    }
}

/// `sym` is the auxiliary symbol that the 18-byte record `rec` holds after a
/// primary of class `parent`.
pub open spec fn auxiliary_matches(sym: Symbol, rec: Seq<u8>, parent: StorageClass) -> bool {
    match sym {
        Symbol::Auxiliary { x_fname, x_tagndx, x_lnno, x_size, x_fsize, x_lnnoptr, x_endndx, x_dimen, x_tvndx } => {
            &&& if parent == StorageClass::Filename {
                x_fname matches Some(f) && f@ == text_or_unknown(c_bytes(rec.subrange(0, 14)))
            } else {
                x_fname is None
            }
            &&& x_tagndx == be32(rec, 0) as u32
            &&& x_lnno == be16(rec, 4) as u16
            &&& x_size == be16(rec, 6) as u16
            &&& x_fsize == be32(rec, 4) as u32
            &&& x_lnnoptr == be32(rec, 8) as u32
            &&& x_endndx == be32(rec, 12) as u32
            &&& x_dimen == [be16(rec, 8) as u16, be16(rec, 10) as u16, be16(rec, 12) as u16, be16(rec, 14) as u16]
            &&& x_tvndx == be16(rec, 16) as u16
        },
        _ => false,
    }
}

/// `sym` is the symbol that record `rec` holds, read as an auxiliary after a
/// primary of class `parent` when `is_aux`, else as a primary.
pub open spec fn symbol_matches(sym: Symbol, rec: Seq<u8>, is_aux: bool, parent: StorageClass) -> bool {
    if is_aux {
        auxiliary_matches(sym, rec, parent)
    } else {
        sym == primary_of(rec)
    }
}

/// The state carried from one record of the symbol table to the next.
pub struct SymbolState {
    /// The next record is an auxiliary.
    pub is_aux: bool,
    /// Auxiliaries still to come.
    pub remaining: u8,
    /// Storage class of the primary that the auxiliaries belong to.
    pub class: StorageClass,
}

/// The state before the first record.
pub open spec fn initial_state() -> SymbolState {
    SymbolState { is_aux: false, remaining: 0, class: StorageClass::Null }
}

/// The state after record `rec` was read in state `st`.
pub open spec fn next_state(st: SymbolState, rec: Seq<u8>) -> SymbolState {
    if st.is_aux {
        let rem = (st.remaining - 1) as u8;
        SymbolState { is_aux: rem != 0, remaining: rem, class: st.class }
    } else if rec[17] > 0 {
        SymbolState { is_aux: true, remaining: rec[17], class: storage_class_of(rec[16] as i8) }
    } else {
        st
    }
}

/// Record `i` of the symbol table at `off`.
pub open spec fn symbol_record(s: Seq<u8>, off: int, i: int) -> Seq<u8> {
    s.subrange(off + 18 * i, off + 18 * i + 18)
}

/// The state before record `i` of the symbol table at `off`.
pub open spec fn state_before(s: Seq<u8>, off: int, i: int) -> SymbolState
    decreases i,
{
    if i <= 0 {
        initial_state()
    } else {
        next_state(state_before(s, off, i - 1), symbol_record(s, off, i - 1))
    }
}

/// `syms` are the `n` symbols of the table at `off`.
pub open spec fn symbols_match(syms: Seq<SymbolTableEntry>, s: Seq<u8>, off: int, n: int) -> bool {
    &&& syms.len() == n
    &&& forall|i: int|
        0 <= i < n ==> symbol_matches(
            (#[trigger] syms[i]).symbol,
            symbol_record(s, off, i),
            state_before(s, off, i).is_aux,
            state_before(s, off, i).class,
        )
}

/// An entry of the symbol table.
#[derive(Clone, Debug, PartialEq, Eq)]
pub struct SymbolTableEntry {
    pub symbol: Symbol,
}

impl SymbolTableEntry {
    /// Reads one 18-byte record at the cursor: as an auxiliary of a primary of
    /// class `parent_class` when `is_aux`, else as a primary.
    pub fn read_symbol(cursor: &mut ByteCursor, is_aux: bool, parent_class: &StorageClass) -> (r: Option<Symbol>)
        ensures
            final(cursor).data() == old(cursor).data(),
            avail(old(cursor).data(), old(cursor).pos(), 18) ==> final(cursor).pos() == old(cursor).pos() + 18 && (r matches Some(
                sym,
            ) && symbol_matches(
                sym,
                old(cursor).data().subrange(old(cursor).pos(), old(cursor).pos() + 18),
                is_aux,
                *parent_class,
            )),
            !avail(old(cursor).data(), old(cursor).pos(), 18) ==> r is None,
    {
        let raw = cursor.read_exact(SYMBOL_SIZE)?;
        let rb = raw.as_slice();
        if is_aux {
            let x_fname = if *parent_class == StorageClass::Filename {
                Some(c_text_or_unknown(&rb[0..14]))
            } else {
                None
            };
            Some(
                Symbol::Auxiliary {
                    x_fname,
                    x_tagndx: be32_at(rb, 0),
                    x_lnno: be16_at(rb, 4),
                    x_size: be16_at(rb, 6),
                    x_fsize: be32_at(rb, 4),
                    x_lnnoptr: be32_at(rb, 8),
                    x_endndx: be32_at(rb, 12),
                    x_dimen: [be16_at(rb, 8), be16_at(rb, 10), be16_at(rb, 12), be16_at(rb, 14)],
                    x_tvndx: be16_at(rb, 16),
                },
            )
        } else {
            let n_name: [u8; 8] = [rb[0], rb[1], rb[2], rb[3], rb[4], rb[5], rb[6], rb[7]];
            Some(
                Symbol::Primary {
                    n_name,
                    n_zeroes: be32_at(rb, 0),
                    n_offset: be32_at(rb, 4),
                    n_value: be32_at(rb, 8),
                    n_scnum: be16_at(rb, 12) as i16,
                    n_type: be16_at(rb, 14),
                    n_numaux: rb[17],
                    storage_class: StorageClass::from_code(rb[16] as i8),
                },
            )
        }
    }
}

/// After a record read as a primary that declares `k` auxiliaries, the next
/// `k` records are read as auxiliaries, with `k - j + 1` still to come before
/// the `j`-th.
pub proof fn lemma_declared_auxiliaries(s: Seq<u8>, off: int, i: int, j: int)
    requires
        0 <= i,
        !state_before(s, off, i).is_aux,
        1 <= j <= symbol_record(s, off, i)[17],
    ensures
        state_before(s, off, i + j).is_aux,
        state_before(s, off, i + j).remaining == symbol_record(s, off, i)[17] - j + 1,
    decreases j,
{
    if j > 1 {
        lemma_declared_auxiliaries(s, off, i, j - 1);
    }
}

/// A record read as an auxiliary belongs to a record `d` places before it
/// that was read as a primary and declared at least `d` auxiliaries.
pub proof fn lemma_auxiliary_origin(s: Seq<u8>, off: int, i: int) -> (d: int)
    requires
        0 <= i,
        state_before(s, off, i).is_aux,
    ensures
        1 <= d <= i,
        !state_before(s, off, i - d).is_aux,
        state_before(s, off, i).remaining >= 1,
        symbol_record(s, off, i - d)[17] == state_before(s, off, i).remaining + d - 1,
    decreases i,
{
    let prev = state_before(s, off, i - 1);
    if prev.is_aux {
        let dp = lemma_auxiliary_origin(s, off, i - 1);
        assert(i - 1 - dp == i - (dp + 1));
        dp + 1
    } else {
        1
    }
}

} // verus!
