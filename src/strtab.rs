use vstd::prelude::*;
use vstd::utf8::{decode_utf8, valid_utf8};

use crate::cursor::{avail, be32, ByteCursor};
use crate::text::{buf_to_str, c_bytes, lemma_nul_index, text_or_unknown, utf8_of, utf8_or_unknown};

verus! {

/// The table's bytes as kept in memory for the table stored at `p`: four
/// zero bytes where the size field stands, then the strings area.
pub open spec fn table_bytes(s: Seq<u8>, p: int) -> Seq<u8> {
    let n = be32(s, p);
    seq![0u8, 0u8, 0u8, 0u8] + if n > 4 {
        s.subrange(p + 4, p + n)
    } else {
        Seq::empty()
    }
}

/// The string table stored at `p` can be read in full.
pub open spec fn table_readable(s: Seq<u8>, p: int) -> bool {
    avail(s, p, 4) && (be32(s, p) > 4 ==> avail(s, p, be32(s, p)))
}

/// The strings of `data` from index `j` on, the current one starting at
/// `start`: one entry, with its offset, for each string that a NUL ends.
pub open spec fn strings_from(data: Seq<u8>, start: int, j: int) -> Seq<(u32, Seq<char>)>
    decreases data.len() - j,
{
    if j < 0 || j >= data.len() {
        Seq::empty()
    } else if data[j] == 0 {
        seq![(start as u32, text_or_unknown(data.subrange(start, j)))] + strings_from(data, j + 1, j + 1)
    } else {
        strings_from(data, start, j + 1)
    }
}

/// The offset and text of each entry.
pub open spec fn entries_view(v: Seq<(u32, String)>) -> Seq<(u32, Seq<char>)> {
    v.map_values(|e: (u32, String)| (e.0, e.1@))
}

/// The name stored at `offset` of the table's bytes `data`: the text up to
/// the next NUL, if it is valid UTF-8; none for an offset past the end.
pub open spec fn name_at_offset(data: Seq<u8>, offset: int) -> Option<Seq<char>> {
    if offset > data.len() {
        None
    } else {
        utf8_of(c_bytes(data.subrange(offset, data.len() as int)))
    }
}

/// The string table: its bytes, with the size field's place zeroed, and the
/// strings it holds in order of offset.
pub struct StringTable {
    pub data: Vec<u8>,
    pub data_size: u32,
    pub strings: Vec<(u32, String)>,
}

impl StringTable {
    /// `self` is the string table stored at `p` of `s`.
    pub open spec fn read_from(&self, s: Seq<u8>, p: int) -> bool {
        &&& self.data_size as int == be32(s, p)
        &&& self.data@ == table_bytes(s, p)
        &&& entries_view(self.strings@) == strings_from(self.data@, 4, 4)
    }

    /// The table's bytes start with the zeroed size field, and its strings
    /// come in strictly ascending order of offset.
    pub open spec fn wf(&self) -> bool {
        &&& self.data@.len() >= 4
        &&& self.data@[0] == 0 && self.data@[1] == 0 && self.data@[2] == 0 && self.data@[3] == 0
        &&& forall|i: int, j: int|
            0 <= i < j < self.strings@.len() ==> (#[trigger] self.strings@[i]).0 < (#[trigger] self.strings@[j]).0
    }

    /// Reads the string table at the cursor.
    pub fn read(cursor: &mut ByteCursor) -> (r: Option<StringTable>)
        ensures
            final(cursor).data() == old(cursor).data(),
            table_readable(old(cursor).data(), old(cursor).pos()) ==> (r matches Some(t) && t.read_from(
                old(cursor).data(),
                old(cursor).pos(),
            ) && t.wf()),
            !table_readable(old(cursor).data(), old(cursor).pos()) ==> r is None,
    {
        let ghost s = cursor.data();
        let ghost p = cursor.pos();
        let data_size = cursor.read_u32_be()?;
        let mut data: Vec<u8> = vec![0u8, 0u8, 0u8, 0u8];
        if data_size > 4 {
            let body = cursor.read_exact((data_size - 4) as usize)?;
            let mut k: usize = 0;
            while k < body.len()
                invariant
                    data@ == seq![0u8, 0u8, 0u8, 0u8] + body@.subrange(0, k as int),
                    k <= body@.len(),
                decreases body@.len() - k,
            {
                data.push(body[k]);
                k = k + 1;
                assert(data@ =~= seq![0u8, 0u8, 0u8, 0u8] + body@.subrange(0, k as int));
            }
            assert(body@.subrange(0, k as int) =~= body@);
        }
        assert(data@ =~= table_bytes(s, p));
        assert(data@.len() <= 0xffff_ffff);
        let ghost full = data@;
        let mut strings: Vec<(u32, String)> = Vec::new();
        let mut start: usize = 4;
        let mut j: usize = 4;
        assert(entries_view(strings@) =~= Seq::empty());
        while j < data.len()
            invariant
                data@ == full,
                full.len() <= 0xffff_ffff,
                4 <= start <= j <= full.len(),
                strings_from(full, 4, 4) == entries_view(strings@) + strings_from(full, start as int, j as int),
                forall|a: int| 0 <= a < strings@.len() ==> (#[trigger] strings@[a]).0 < start,
                forall|a: int, b: int|
                    0 <= a < b < strings@.len() ==> (#[trigger] strings@[a]).0 < (#[trigger] strings@[b]).0,
            decreases full.len() - j,
        {
            if data[j] == 0 {
                let t = utf8_or_unknown(&data.as_slice()[start..j]);
                let ghost before = entries_view(strings@);
                strings.push((start as u32, t));
                assert(entries_view(strings@) =~= before.push((start as u32, t@)));
                assert(before + strings_from(full, start as int, j as int) =~= entries_view(strings@)
                    + strings_from(full, j + 1, j + 1));
                start = j + 1;
            }
            j = j + 1;
        }
        assert(strings_from(full, start as int, j as int) =~= Seq::empty());
        assert(entries_view(strings@) + Seq::empty() =~= entries_view(strings@));
        Some(StringTable { data, data_size, strings })
    }

    /// The name stored at `index`: the text up to the next NUL, when it is
    /// valid UTF-8. `None` for invalid text and for an index past the end.
    pub fn string_at(&self, index: u32) -> (r: Option<String>)
        ensures
            r matches Some(t) ==> name_at_offset(self.data@, index as int) == Some(t@),
            r is None ==> name_at_offset(self.data@, index as int) is None,
    {
        let start = index as usize;
        if start > self.data.len() {
            None
        } else {
            buf_to_str(&self.data.as_slice()[start..self.data.len()])
        }
    }
}

/// Offset 0 of a table names the empty string.
pub proof fn lemma_offset_zero_is_empty(t: StringTable)
    requires
        t.wf(),
    ensures
        name_at_offset(t.data@, 0) == Some(Seq::<char>::empty()),
{
    let d = t.data@.subrange(0, t.data@.len() as int);
    assert(d[0] == 0);
    lemma_nul_index(d, 0);
    assert(c_bytes(d) =~= Seq::<u8>::empty());
    assert(valid_utf8(Seq::<u8>::empty()));
    assert(decode_utf8(Seq::<u8>::empty()) =~= Seq::<char>::empty());
}

} // verus!
