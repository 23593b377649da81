use vstd::prelude::*;

use crate::cursor::{avail, le16, le16_bytes, le32, le32_bytes, lemma_le16_bytes, lemma_le32_bytes, ByteCursor};
use crate::errors::DecodeError;
use crate::mnemonics::{byte_mnemonic, byte_table, halfword_mnemonic, halfword_table};

verus! {

/// Register number of the frame pointer.
pub const R_FP: usize = 9;

/// Register number of the argument pointer.
pub const R_AP: usize = 10;

/// The addressing mode of an operand.
#[derive(Clone, Copy, PartialEq, Eq, Debug, Structural)]
pub enum AddrMode {
    /// A literal operand, which has no addressing mode.
    Unset,
    Absolute,
    AbsoluteDeferred,
    ByteDisplacement,
    ByteDisplacementDeferred,
    HalfwordDisplacement,
    HalfwordDisplacementDeferred,
    WordDisplacement,
    WordDisplacementDeferred,
    APShortOffset,
    FPShortOffset,
    ByteImmediate,
    HalfwordImmediate,
    WordImmediate,
    PositiveLiteral,
    NegativeLiteral,
    Register,
    RegisterDeferred,
}

/// The role of one operand slot of a mnemonic.
#[derive(Clone, Copy, PartialEq, Eq, Debug, Structural)]
pub enum OpType {
    /// A raw literal with no descriptor byte, as wide as the mnemonic's data type.
    Lit,
    Src,
    Dest,
    /// No operand; this and every later slot are unused.
    Unused,
}

/// A data type of an instruction or an operand.
#[derive(Clone, Copy, PartialEq, Eq, Debug, Structural)]
pub enum Data {
    /// No data type, for instructions without operands.
    Untyped,
    Byte,
    Half,
    Word,
    SByte,
    UHalf,
    UWord,
}

/// An entry of an opcode table.
#[derive(Clone, Copy, Debug, PartialEq, Eq)]
pub struct Mnemonic {
    pub opcode: u16,
    pub dtype: Data,
    pub name: &'static str,
    pub ops: [OpType; 4],
}

/// One decoded operand.
#[derive(Clone, Debug, PartialEq, Eq)]
pub struct Operand {
    pub mode: AddrMode,
    pub data_type: Data,
    pub expanded_type: Option<Data>,
    pub register: Option<usize>,
    pub embedded: u32,
    /// The bytes of the stream that make up the operand, in stream order.
    pub bytes: Vec<u8>,
}

/// What decoding one operand yields: its fields and the stream range
/// `start..end` that it occupies.
pub struct OperandModel {
    pub mode: AddrMode,
    pub data_type: Data,
    pub expanded_type: Option<Data>,
    pub register: Option<usize>,
    pub embedded: u32,
    pub start: int,
    pub end: int,
}

/// What decoding one instruction yields: its table entry, its operands and the
/// position just past its last byte.
pub struct DecodedInstruction {
    pub mnemonic: Mnemonic,
    pub operands: Seq<OperandModel>,
    pub end: int,
}

/// An operand that occupies `start..end` with the given fields.
pub open spec fn operand_model(
    mode: AddrMode,
    data_type: Data,
    expanded_type: Option<Data>,
    register: Option<usize>,
    embedded: u32,
    start: int,
    end: int,
) -> OperandModel {
    OperandModel { mode, data_type, expanded_type, register, embedded, start, end }
}

/// A descriptor at `p` followed by a little-endian word.
pub open spec fn with_word(
    s: Seq<u8>,
    p: int,
    dtype: Data,
    etype: Option<Data>,
    mode: AddrMode,
    register: Option<usize>,
) -> Result<OperandModel, DecodeError> {
    if avail(s, p + 1, 4) {
        Ok(operand_model(mode, dtype, etype, register, le32(s, p + 1) as u32, p, p + 5))
    } else {
        Err(DecodeError::IoExhausted)
    }
}

/// A descriptor at `p` followed by a little-endian halfword.
pub open spec fn with_half(
    s: Seq<u8>,
    p: int,
    dtype: Data,
    etype: Option<Data>,
    mode: AddrMode,
    register: Option<usize>,
) -> Result<OperandModel, DecodeError> {
    if avail(s, p + 1, 2) {
        Ok(operand_model(mode, dtype, etype, register, le16(s, p + 1) as u32, p, p + 3))
    } else {
        Err(DecodeError::IoExhausted)
    }
}

/// A descriptor at `p` followed by one byte.
pub open spec fn with_byte(
    s: Seq<u8>,
    p: int,
    dtype: Data,
    etype: Option<Data>,
    mode: AddrMode,
    register: Option<usize>,
) -> Result<OperandModel, DecodeError> {
    if avail(s, p + 1, 1) {
        Ok(operand_model(mode, dtype, etype, register, s[p + 1] as u32, p, p + 2))
    } else {
        Err(DecodeError::IoExhausted)
    }
}

/// A descriptor at `p` that stands alone.
pub open spec fn alone(
    p: int,
    dtype: Data,
    etype: Option<Data>,
    mode: AddrMode,
    register: Option<usize>,
    embedded: u32,
) -> Result<OperandModel, DecodeError> {
    Ok(operand_model(mode, dtype, etype, register, embedded, p, p + 1))
}

/// The data type that an expanded-type descriptor with low nibble `r` selects.
pub open spec fn expanded_type_of(r: int) -> Option<Data> {
    if r == 0 {
        Some(Data::UWord)
    } else if r == 2 {
        Some(Data::UHalf)
    } else if r == 3 {
        Some(Data::Byte)
    } else if r == 4 {
        Some(Data::Word)
    } else if r == 6 {
        Some(Data::Half)
    } else if r == 7 {
        Some(Data::SByte)
    } else {
        None
    }
}

/// The descriptor operand at position `p` of `s`, for an instruction of data
/// type `dtype`, with `etype` the expanded type carried in.
///
/// The high nibble `m` of the descriptor byte selects the mode, the low
/// nibble `r` a register or a special form. An expanded-type override
/// (`m == 14`) decodes the next descriptor with the type it selects carried
/// in, except for `r == 15`, which is an absolute address with no further
/// descriptor.
pub open spec fn descriptor_operand(s: Seq<u8>, p: int, dtype: Data, etype: Option<Data>) -> Result<
    OperandModel,
    DecodeError,
>
    decreases s.len() - p,
{
    if !avail(s, p, 1) {
        Err(DecodeError::IoExhausted)
    } else {
        let b = s[p];
        let m = b / 16;
        let r = b % 16;
        if m <= 3 {
            alone(p, dtype, etype, AddrMode::PositiveLiteral, None, b as u32)
        } else if m == 4 {
            if r == 15 {
                with_word(s, p, dtype, etype, AddrMode::WordImmediate, None)
            } else {
                alone(p, dtype, etype, AddrMode::Register, Some(r as usize), 0)
            }
        } else if m == 5 {
            if r == 15 {
                with_half(s, p, dtype, etype, AddrMode::HalfwordImmediate, None)
            } else if r == 11 {
                Err(DecodeError::ParseError)
            } else {
                alone(p, dtype, etype, AddrMode::RegisterDeferred, Some(r as usize), 0)
            }
        } else if m == 6 {
            if r == 15 {
                with_byte(s, p, dtype, etype, AddrMode::ByteImmediate, None)
            } else {
                alone(p, dtype, etype, AddrMode::FPShortOffset, Some(R_FP), r as u32)
            }
        } else if m == 7 {
            if r == 15 {
                with_word(s, p, dtype, etype, AddrMode::Absolute, None)
            } else {
                alone(p, dtype, etype, AddrMode::APShortOffset, Some(R_AP), r as u32)
            }
        } else if m <= 13 && r == 11 {
            Err(DecodeError::ParseError)
        } else if m == 8 {
            with_word(s, p, dtype, etype, AddrMode::WordDisplacement, Some(r as usize))
        } else if m == 9 {
            with_word(s, p, dtype, etype, AddrMode::WordDisplacementDeferred, Some(r as usize))
        } else if m == 10 {
            with_half(s, p, dtype, etype, AddrMode::HalfwordDisplacement, Some(r as usize))
        } else if m == 11 {
            with_half(s, p, dtype, etype, AddrMode::HalfwordDisplacementDeferred, Some(r as usize))
        } else if m == 12 {
            with_byte(s, p, dtype, etype, AddrMode::ByteDisplacement, Some(r as usize))
        } else if m == 13 {
            with_byte(s, p, dtype, etype, AddrMode::ByteDisplacementDeferred, Some(r as usize))
        } else if m == 14 {
            if r == 15 {
                with_word(s, p, dtype, etype, AddrMode::Absolute, None)
            } else {
                match expanded_type_of(r as int) {
                    Some(x) => match descriptor_operand(s, p + 1, dtype, Some(x)) {
                        Ok(o) => Ok(OperandModel { start: p, ..o }),
                        Err(e) => Err(e),
                    },
                    None => Err(DecodeError::ParseError),
                }
            }
        } else {
            alone(p, dtype, etype, AddrMode::NegativeLiteral, None, b as u32)
        }
    }
}

/// The literal operand at position `p` of `s`: as wide as `dtype`, with no
/// descriptor byte.
pub open spec fn literal_operand(s: Seq<u8>, p: int, dtype: Data) -> Result<OperandModel, DecodeError> {
    let lit = |v: u32, n: int| operand_model(AddrMode::Unset, Data::Byte, None, None, v, p, p + n);
    match dtype {
        Data::Byte => if avail(s, p, 1) {
            Ok(lit(s[p] as u32, 1))
        } else {
            Err(DecodeError::IoExhausted)
        },
        Data::Half => if avail(s, p, 2) {
            Ok(lit(le16(s, p) as u32, 2))
        } else {
            Err(DecodeError::IoExhausted)
        },
        Data::Word => if avail(s, p, 4) {
            Ok(lit(le32(s, p) as u32, 4))
        } else {
            Err(DecodeError::IoExhausted)
        },
        _ => Err(DecodeError::ParseError),
    }
}

/// The operand of slot kind `ot` at position `p`.
pub open spec fn operand_at(s: Seq<u8>, p: int, ot: OpType, dtype: Data, etype: Option<Data>) -> Result<
    OperandModel,
    DecodeError,
> {
    if ot == OpType::Lit {
        literal_operand(s, p, dtype)
    } else {
        descriptor_operand(s, p, dtype, etype)
    }
}

/// The operands of `mn` from slot `k` on, the first at position `p`, with
/// `etype` carried in; and the position past the last one.
pub open spec fn operands_from(s: Seq<u8>, p: int, mn: Mnemonic, k: int, etype: Option<Data>) -> Result<
    (Seq<OperandModel>, int),
    DecodeError,
>
    decreases 4 - k,
{
    if k < 0 || k >= 4 || mn.ops[k] == OpType::Unused {
        Ok((seq![], p))
    } else {
        match operand_at(s, p, mn.ops[k], mn.dtype, etype) {
            Err(e) => Err(e),
            Ok(o) => prepend(seq![o], operands_from(s, o.end, mn, k + 1, o.expanded_type)),
        }
    }
}

/// `rest` with the operands `done` put before its own.
pub open spec fn prepend(done: Seq<OperandModel>, rest: Result<(Seq<OperandModel>, int), DecodeError>) -> Result<
    (Seq<OperandModel>, int),
    DecodeError,
> {
    match rest {
        Ok((ops, end)) => Ok((done + ops, end)),
        Err(e) => Err(e),
    }
}

/// The instruction of mnemonic `mn` whose operands start at `p`.
pub open spec fn with_operands(s: Seq<u8>, p: int, mn: Mnemonic) -> Result<DecodedInstruction, DecodeError> {
    match operands_from(s, p, mn, 0, None) {
        Ok((ops, end)) => Ok(DecodedInstruction { mnemonic: mn, operands: ops, end }),
        Err(e) => Err(e),
    }
}

/// The instruction at position `p` of `s`.
pub open spec fn instruction_at(s: Seq<u8>, p: int) -> Result<DecodedInstruction, DecodeError> {
    if !avail(s, p, 1) {
        Err(DecodeError::IoExhausted)
    } else if s[p] == 0x30 {
        if !avail(s, p, 2) {
            Err(DecodeError::IoExhausted)
        } else {
            match halfword_table(s[p + 1]) {
                Some(mn) => with_operands(s, p + 2, mn),
                None => Err(DecodeError::ParseError),
            }
        }
    } else {
        match byte_table(s[p]) {
            Some(mn) => with_operands(s, p + 1, mn),
            None => Err(DecodeError::ParseError),
        }
    }
}

/// `o` holds the fields of `m`.
pub open spec fn fields_match(o: Operand, m: OperandModel) -> bool {
    &&& o.mode == m.mode
    &&& o.data_type == m.data_type
    &&& o.expanded_type == m.expanded_type
    &&& o.register == m.register
    &&& o.embedded == m.embedded
}

/// `o` is the operand `m` of stream `s`.
pub open spec fn operand_matches(o: Operand, m: OperandModel, s: Seq<u8>) -> bool {
    fields_match(o, m) && o.bytes@ == s.subrange(m.start, m.end)
}

/// `ir` is the instruction `d` of stream `s`.
pub open spec fn instruction_matches(ir: Instruction, d: DecodedInstruction, s: Seq<u8>) -> bool {
    &&& ir.opcode == d.mnemonic.opcode
    &&& ir.name == d.mnemonic.name
    &&& ir.data_type == d.mnemonic.dtype
    &&& ir.operand_count as int == d.operands.len()
    &&& ir.operands@.len() == d.operands.len()
    &&& forall|i: int| 0 <= i < d.operands.len() ==> operand_matches(#[trigger] ir.operands@[i], d.operands[i], s)
}

impl Operand {
    /// An operand with the given fields and no bytes.
    pub fn new(
        mode: AddrMode,
        data_type: Data,
        expanded_type: Option<Data>,
        register: Option<usize>,
        embedded: u32,
    ) -> (r: Operand)
        ensures
            r.mode == mode,
            r.data_type == data_type,
            r.expanded_type == expanded_type,
            r.register == register,
            r.embedded == embedded,
            r.bytes@ == Seq::<u8>::empty(),
    {
        Operand { mode, data_type, expanded_type, register, embedded, bytes: Vec::new() }
    }

    /// Forgets the recorded bytes.
    pub fn reset(&mut self)
        ensures
            final(self).bytes@ == Seq::<u8>::empty(),
            fields_match(*final(self), operand_model(old(self).mode, old(self).data_type, old(self).expanded_type, old(self).register, old(self).embedded, 0, 0)),
    {
        self.bytes = Vec::new();
    }

    /// The number of recorded bytes.
    pub fn byte_size(&self) -> (r: usize)
        ensures
            r == self.bytes@.len(),
    {
        self.bytes.len()
    }

    /// Records one byte.
    pub fn append_u8(&mut self, b: u8)
        ensures
            final(self).bytes@ == old(self).bytes@.push(b),
            fields_match(*final(self), operand_model(old(self).mode, old(self).data_type, old(self).expanded_type, old(self).register, old(self).embedded, 0, 0)),
    {
        self.bytes.push(b);
    }

    /// Records a halfword, least significant byte first.
    pub fn append_u16(&mut self, h: u16)
        ensures
            final(self).bytes@ == old(self).bytes@ + le16_bytes(h),
            fields_match(*final(self), operand_model(old(self).mode, old(self).data_type, old(self).expanded_type, old(self).register, old(self).embedded, 0, 0)),
    {
        self.bytes.push((h % 256) as u8);
        self.bytes.push((h / 256) as u8);
        assert(self.bytes@ =~= old(self).bytes@ + le16_bytes(h));
    }

    /// Records a word, least significant byte first.
    pub fn append_u32(&mut self, w: u32)
        ensures
            final(self).bytes@ == old(self).bytes@ + le32_bytes(w),
            fields_match(*final(self), operand_model(old(self).mode, old(self).data_type, old(self).expanded_type, old(self).register, old(self).embedded, 0, 0)),
    {
        self.bytes.push((w % 256) as u8);
        self.bytes.push(((w / 256) % 256) as u8);
        self.bytes.push(((w / 65536) % 256) as u8);
        self.bytes.push((w / 16777216) as u8);
        assert(self.bytes@ =~= old(self).bytes@ + le32_bytes(w));
    }
}

/// The decoded form of one instruction.
#[derive(Clone, Debug, PartialEq, Eq)]
pub struct Instruction {
    pub opcode: u16,
    pub name: &'static str,
    pub data_type: Data,
    pub operand_count: u8,
    pub operands: Vec<Operand>,
}

/// The high and low nibbles of a byte.
proof fn lemma_nibbles(b: u8)
    ensures
        b >> 4 == b / 16,
        b & 0xf == b % 16,
{
    assert(b >> 4 == b / 16 && b & 0xf == b % 16) by (bit_vector);
}

/// How a decoding step that was expected to give `expect` ended: the operand
/// `after` holds its fields, its bytes are `before` followed by the stream from
/// `from` to the operand's end, and the cursor stands at that end.
spec fn outcome(
    r: Result<(), DecodeError>,
    expect: Result<OperandModel, DecodeError>,
    s: Seq<u8>,
    from: int,
    before: Seq<u8>,
    after: Operand,
    pos: int,
) -> bool {
    match expect {
        Ok(m) => r is Ok && pos == m.end && fields_match(after, m) && after.bytes@ == before + s.subrange(from, m.end),
        Err(e) => r == Err::<(), DecodeError>(e),
    }
}

/// Completes `op`, whose descriptor byte was the last byte read, with the
/// little-endian word that follows it.
fn finish_word(
    cursor: &mut ByteCursor,
    op: &mut Operand,
    mode: AddrMode,
    register: Option<usize>,
    Ghost(before): Ghost<Seq<u8>>,
) -> (r: Result<(), DecodeError>)
    requires
        avail(old(cursor).data(), old(cursor).pos() - 1, 1),
        old(op).bytes@ == before + old(cursor).data().subrange(old(cursor).pos() - 1, old(cursor).pos()),
    ensures
        final(cursor).data() == old(cursor).data(),
        outcome(
            r,
            with_word(old(cursor).data(), old(cursor).pos() - 1, old(op).data_type, old(op).expanded_type, mode, register),
            old(cursor).data(),
            old(cursor).pos() - 1,
            before,
            *final(op),
            final(cursor).pos(),
        ),
{
    let ghost s = cursor.data();
    let ghost p = cursor.pos();
    match cursor.read_u32_le() {
        Some(w) => {
            proof {
                lemma_le32_bytes(s, p);
            }
            op.mode = mode;
            op.register = register;
            op.embedded = w;
            op.append_u32(w);
            assert(op.bytes@ =~= before + s.subrange(p - 1, p + 4));
            Ok(())
        },
        None => Err(DecodeError::IoExhausted),
    }
}

/// Completes `op`, whose descriptor byte was the last byte read, with the
/// little-endian halfword that follows it.
fn finish_half(
    cursor: &mut ByteCursor,
    op: &mut Operand,
    mode: AddrMode,
    register: Option<usize>,
    Ghost(before): Ghost<Seq<u8>>,
) -> (r: Result<(), DecodeError>)
    requires
        avail(old(cursor).data(), old(cursor).pos() - 1, 1),
        old(op).bytes@ == before + old(cursor).data().subrange(old(cursor).pos() - 1, old(cursor).pos()),
    ensures
        final(cursor).data() == old(cursor).data(),
        outcome(
            r,
            with_half(old(cursor).data(), old(cursor).pos() - 1, old(op).data_type, old(op).expanded_type, mode, register),
            old(cursor).data(),
            old(cursor).pos() - 1,
            before,
            *final(op),
            final(cursor).pos(),
        ),
{
    let ghost s = cursor.data();
    let ghost p = cursor.pos();
    match cursor.read_u16_le() {
        Some(h) => {
            proof {
                lemma_le16_bytes(s, p);
            }
            op.mode = mode;
            op.register = register;
            op.embedded = h as u32;
            op.append_u16(h);
            assert(op.bytes@ =~= before + s.subrange(p - 1, p + 2));
            Ok(())
        },
        None => Err(DecodeError::IoExhausted),
    }
}

/// Completes `op`, whose descriptor byte was the last byte read, with the
/// byte that follows it.
fn finish_byte(
    cursor: &mut ByteCursor,
    op: &mut Operand,
    mode: AddrMode,
    register: Option<usize>,
    Ghost(before): Ghost<Seq<u8>>,
) -> (r: Result<(), DecodeError>)
    requires
        avail(old(cursor).data(), old(cursor).pos() - 1, 1),
        old(op).bytes@ == before + old(cursor).data().subrange(old(cursor).pos() - 1, old(cursor).pos()),
    ensures
        final(cursor).data() == old(cursor).data(),
        outcome(
            r,
            with_byte(old(cursor).data(), old(cursor).pos() - 1, old(op).data_type, old(op).expanded_type, mode, register),
            old(cursor).data(),
            old(cursor).pos() - 1,
            before,
            *final(op),
            final(cursor).pos(),
        ),
{
    let ghost s = cursor.data();
    let ghost p = cursor.pos();
    match cursor.read_u8() {
        Some(b) => {
            op.mode = mode;
            op.register = register;
            op.embedded = b as u32;
            op.append_u8(b);
            assert(op.bytes@ =~= before + s.subrange(p - 1, p + 1));
            Ok(())
        },
        None => Err(DecodeError::IoExhausted),
    }
}

/// Completes `op` as an operand without trailing bytes.
fn finish_alone(op: &mut Operand, mode: AddrMode, register: Option<usize>, embedded: u32) -> (r: Result<(), DecodeError>)
    ensures
        r is Ok,
        final(op).mode == mode,
        final(op).register == register,
        final(op).embedded == embedded,
        final(op).data_type == old(op).data_type,
        final(op).expanded_type == old(op).expanded_type,
        final(op).bytes@ == old(op).bytes@,
{
    op.mode = mode;
    op.register = register;
    op.embedded = embedded;
    Ok(())
}

/// A decoded descriptor operand starts at `p` and ends within the stream.
proof fn lemma_descriptor_bounds(s: Seq<u8>, p: int, dtype: Data, etype: Option<Data>)
    ensures
        descriptor_operand(s, p, dtype, etype) matches Ok(m) ==> m.start == p && p < m.end <= s.len(),
    decreases s.len() - p,
{
    if avail(s, p, 1) {
        lemma_descriptor_bounds(s, p + 1, dtype, Some(Data::UWord));
        lemma_descriptor_bounds(s, p + 1, dtype, Some(Data::UHalf));
        lemma_descriptor_bounds(s, p + 1, dtype, Some(Data::Byte));
        lemma_descriptor_bounds(s, p + 1, dtype, Some(Data::Word));
        lemma_descriptor_bounds(s, p + 1, dtype, Some(Data::Half));
        lemma_descriptor_bounds(s, p + 1, dtype, Some(Data::SByte));
    }
}

/// Decodes a descriptor operand into `op`, appending the bytes it takes up.
fn decode_descriptor_operand(
    cursor: &mut ByteCursor,
    op: &mut Operand,
    dtype: Data,
    etype: Option<Data>,
) -> (r: Result<(), DecodeError>)
    ensures
        final(cursor).data() == old(cursor).data(),
        outcome(
            r,
            descriptor_operand(old(cursor).data(), old(cursor).pos(), dtype, etype),
            old(cursor).data(),
            old(cursor).pos(),
            old(op).bytes@,
            *final(op),
            final(cursor).pos(),
        ),
    decreases cursor.data().len() - cursor.pos(),
{
    let ghost s = cursor.data();
    let ghost p = cursor.pos();
    let ghost before = op.bytes@;
    let b = match cursor.read_u8() {
        Some(b) => b,
        None => return Err(DecodeError::IoExhausted),
    };
    op.data_type = dtype;
    op.expanded_type = etype;
    op.append_u8(b);
    assert(op.bytes@ =~= before + s.subrange(p, p + 1));
    let m = b >> 4;
    let r = b & 0xf;
    proof {
        lemma_nibbles(b);
    }
    if m <= 3 {
        finish_alone(op, AddrMode::PositiveLiteral, None, b as u32)
    } else if m == 4 {
        if r == 15 {
            finish_word(cursor, op, AddrMode::WordImmediate, None, Ghost(before))
        } else {
            finish_alone(op, AddrMode::Register, Some(r as usize), 0)
        }
    } else if m == 5 {
        if r == 15 {
            finish_half(cursor, op, AddrMode::HalfwordImmediate, None, Ghost(before))
        } else if r == 11 {
            Err(DecodeError::ParseError)
        } else {
            finish_alone(op, AddrMode::RegisterDeferred, Some(r as usize), 0)
        }
    } else if m == 6 {
        if r == 15 {
            finish_byte(cursor, op, AddrMode::ByteImmediate, None, Ghost(before))
        } else {
            finish_alone(op, AddrMode::FPShortOffset, Some(R_FP), r as u32)
        }
    } else if m == 7 {
        if r == 15 {
            finish_word(cursor, op, AddrMode::Absolute, None, Ghost(before))
        } else {
            finish_alone(op, AddrMode::APShortOffset, Some(R_AP), r as u32)
        }
    } else if m <= 13 && r == 11 {
        Err(DecodeError::ParseError)
    } else if m == 8 {
        finish_word(cursor, op, AddrMode::WordDisplacement, Some(r as usize), Ghost(before))
    } else if m == 9 {
        finish_word(cursor, op, AddrMode::WordDisplacementDeferred, Some(r as usize), Ghost(before))
    } else if m == 10 {
        finish_half(cursor, op, AddrMode::HalfwordDisplacement, Some(r as usize), Ghost(before))
    } else if m == 11 {
        finish_half(cursor, op, AddrMode::HalfwordDisplacementDeferred, Some(r as usize), Ghost(before))
    } else if m == 12 {
        finish_byte(cursor, op, AddrMode::ByteDisplacement, Some(r as usize), Ghost(before))
    } else if m == 13 {
        finish_byte(cursor, op, AddrMode::ByteDisplacementDeferred, Some(r as usize), Ghost(before))
    } else if m == 14 {
        if r == 15 {
            finish_word(cursor, op, AddrMode::Absolute, None, Ghost(before))
        } else {
            let x = if r == 0 {
                Data::UWord
            } else if r == 2 {
                Data::UHalf
            } else if r == 3 {
                Data::Byte
            } else if r == 4 {
                Data::Word
            } else if r == 6 {
                Data::Half
            } else if r == 7 {
                Data::SByte
            } else {
                return Err(DecodeError::ParseError);
            };
            let res = decode_descriptor_operand(cursor, op, dtype, Some(x));
            proof {
                lemma_descriptor_bounds(s, p + 1, dtype, Some(x));
                if let Ok(inner) = descriptor_operand(s, p + 1, dtype, Some(x)) {
                    assert(op.bytes@ =~= before + s.subrange(p, inner.end));
                }
            }
            res
        }
    } else {
        finish_alone(op, AddrMode::NegativeLiteral, None, b as u32)
    }
}

/// Decodes a literal operand of data type `dtype`.
fn decode_literal_operand(cursor: &mut ByteCursor, dtype: Data) -> (r: Result<Operand, DecodeError>)
    ensures
        final(cursor).data() == old(cursor).data(),
        match literal_operand(old(cursor).data(), old(cursor).pos(), dtype) {
            Ok(m) => r matches Ok(o) && operand_matches(o, m, old(cursor).data()) && final(cursor).pos() == m.end,
            Err(e) => r == Err::<Operand, DecodeError>(e),
        },
{
    let ghost s = cursor.data();
    let ghost p = cursor.pos();
    match dtype {
        Data::Byte => match cursor.read_u8() {
            Some(b) => {
                let mut op = Operand::new(AddrMode::Unset, Data::Byte, None, None, b as u32);
                op.append_u8(b);
                assert(op.bytes@ =~= s.subrange(p, p + 1));
                Ok(op)
            },
            None => Err(DecodeError::IoExhausted),
        },
        Data::Half => match cursor.read_u16_le() {
            Some(h) => {
                proof {
                    lemma_le16_bytes(s, p);
                }
                let mut op = Operand::new(AddrMode::Unset, Data::Byte, None, None, h as u32);
                op.append_u16(h);
                assert(op.bytes@ =~= s.subrange(p, p + 2));
                Ok(op)
            },
            None => Err(DecodeError::IoExhausted),
        },
        Data::Word => match cursor.read_u32_le() {
            Some(w) => {
                proof {
                    lemma_le32_bytes(s, p);
                }
                let mut op = Operand::new(AddrMode::Unset, Data::Byte, None, None, w);
                op.append_u32(w);
                assert(op.bytes@ =~= s.subrange(p, p + 4));
                Ok(op)
            },
            None => Err(DecodeError::IoExhausted),
        },
        _ => Err(DecodeError::ParseError),
    }
}

/// Decodes the operand of slot kind `ot` of mnemonic `mn`.
fn decode_operand(cursor: &mut ByteCursor, mn: &Mnemonic, ot: OpType, etype: Option<Data>) -> (r: Result<
    Operand,
    DecodeError,
>)
    ensures
        final(cursor).data() == old(cursor).data(),
        match operand_at(old(cursor).data(), old(cursor).pos(), ot, mn.dtype, etype) {
            Ok(m) => r matches Ok(o) && operand_matches(o, m, old(cursor).data()) && final(cursor).pos() == m.end,
            Err(e) => r == Err::<Operand, DecodeError>(e),
        },
{
    if ot == OpType::Lit {
        decode_literal_operand(cursor, mn.dtype)
    } else {
        let ghost s = cursor.data();
        let ghost p = cursor.pos();
        let mut op = Operand::new(AddrMode::Unset, mn.dtype, etype, None, 0);
        match decode_descriptor_operand(cursor, &mut op, mn.dtype, etype) {
            Ok(()) => {
                assert(op.bytes@ =~= s.subrange(p, cursor.pos()));
                Ok(op)
            },
            Err(e) => Err(e),
        }
    }
}

/// Putting one more operand between `done` and the rest.
proof fn lemma_prepend_push(
    done: Seq<OperandModel>,
    o: OperandModel,
    rest: Result<(Seq<OperandModel>, int), DecodeError>,
)
    ensures
        prepend(done, prepend(seq![o], rest)) == prepend(done.push(o), rest),
{
    if let Ok((ops, end)) = rest {
        assert(done + (seq![o] + ops) =~= done.push(o) + ops);
    }
}

/// A decoder of WE32100 instructions, holding the last one decoded.
pub struct Decoder {
    pub ir: Instruction,
}

impl Default for Decoder {
    /// A decoder that has decoded nothing yet.
    fn default() -> (r: Decoder)
        ensures
            r.ir.opcode == 0,
            r.ir.name@ == "???"@,
            r.ir.operand_count == 0,
            r.ir.operands@.len() == 0,
    {
        Decoder::new()
    }
}

impl Decoder {
    /// A decoder that has decoded nothing yet.
    pub fn new() -> (r: Decoder)
        ensures
            r.ir.opcode == 0,
            r.ir.name@ == "???"@,
            r.ir.data_type == Data::Untyped,
            r.ir.operand_count == 0,
            r.ir.operands@.len() == 0,
    {
        Decoder {
            ir: Instruction {
                opcode: 0,
                name: "???",
                data_type: Data::Untyped,
                operand_count: 0,
                operands: Vec::new(),
            },
        }
    }

    /// Decodes the instruction at the cursor into `ir`.
    ///
    /// On success the cursor stands just past the instruction's last byte; on
    /// failure `ir` is left as it was and the cursor position is unspecified.
    pub fn decode_instruction(&mut self, cursor: &mut ByteCursor) -> (r: Result<(), DecodeError>)
        ensures
            final(cursor).data() == old(cursor).data(),
            match instruction_at(old(cursor).data(), old(cursor).pos()) {
                Ok(d) => r is Ok && final(cursor).pos() == d.end && instruction_matches(final(self).ir, d, old(cursor).data()),
                Err(e) => r == Err::<(), DecodeError>(e) && final(self).ir == old(self).ir,
            },
    {
        let ghost s = cursor.data();
        let ghost p0 = cursor.pos();
        let b1 = match cursor.read_u8() {
            Some(b) => b,
            None => return Err(DecodeError::IoExhausted),
        };
        let found = if b1 == 0x30 {
            let b2 = match cursor.read_u8() {
                Some(b) => b,
                None => return Err(DecodeError::IoExhausted),
            };
            halfword_mnemonic(b2)
        } else {
            byte_mnemonic(b1)
        };
        let mn = match found {
            Some(mn) => mn,
            None => return Err(DecodeError::ParseError),
        };
        let ghost q = cursor.pos();
        assert(instruction_at(s, p0) == with_operands(s, q, mn));
        let mut operands: Vec<Operand> = Vec::new();
        let mut etype: Option<Data> = None;
        let mut k: usize = 0;
        let ghost mut done: Seq<OperandModel> = seq![];
        proof {
            if let Ok((ops, end)) = operands_from(s, q, mn, 0, None) {
                assert(done + ops =~= ops);
            }
        }
        while k < 4
            invariant
                cursor.data() == s,
                s == old(cursor).data(),
                p0 == old(cursor).pos(),
                instruction_at(s, p0) == with_operands(s, q, mn),
                self.ir == old(self).ir,
                k <= 4,
                operands@.len() == k,
                done.len() == k,
                forall|i: int| 0 <= i < k ==> operand_matches(#[trigger] operands@[i], done[i], s),
                operands_from(s, q, mn, 0, None) == prepend(done, operands_from(s, cursor.pos(), mn, k as int, etype)),
            ensures
                operands_from(s, cursor.pos(), mn, k as int, etype) == Ok::<(Seq<OperandModel>, int), DecodeError>(
                    (seq![], cursor.pos()),
                ),
            decreases 4 - k,
        {
            let ot = mn.ops[k];
            if ot == OpType::Unused {
                break;
            }
            let ghost pos = cursor.pos();
            let op = match decode_operand(cursor, &mn, ot, etype) {
                Ok(op) => op,
                Err(e) => return Err(e),
            };
            let ghost m = operand_at(s, pos, ot, mn.dtype, etype)->Ok_0;
            proof {
                lemma_prepend_push(done, m, operands_from(s, m.end, mn, k + 1, m.expanded_type));
                done = done.push(m);
            }
            etype = op.expanded_type;
            operands.push(op);
            k = k + 1;
        }
        proof {
            assert(done + Seq::<OperandModel>::empty() =~= done);
            assert(with_operands(s, q, mn) == Ok::<DecodedInstruction, DecodeError>(DecodedInstruction { mnemonic: mn, operands: done, end: cursor.pos() }));
        }
        self.ir = Instruction {
            opcode: mn.opcode,
            name: mn.name,
            data_type: mn.dtype,
            operand_count: k as u8,
            operands,
        };
        Ok(())
    }
}

/// The number of stream bytes that the operands `ops` take up.
pub open spec fn total_len(ops: Seq<OperandModel>) -> int
    decreases ops.len(),
{
    if ops.len() == 0 {
        0
    } else {
        (ops[0].end - ops[0].start) + total_len(ops.drop_first())
    }
}

/// The number of opcode bytes of the instruction at `p`.
pub open spec fn opcode_width(s: Seq<u8>, p: int) -> int {
    if s[p] == 0x30 {
        2
    } else {
        1
    }
}

/// A decoded operand of any kind starts where it was asked for.
proof fn lemma_operand_bounds(s: Seq<u8>, p: int, ot: OpType, dtype: Data, etype: Option<Data>)
    ensures
        operand_at(s, p, ot, dtype, etype) matches Ok(m) ==> m.start == p && p < m.end <= s.len(),
{
    lemma_descriptor_bounds(s, p, dtype, etype);
}

/// The operands of slot `k` on form a chain: each is decoded where the one
/// before it ended, with the expanded type that one left.
proof fn lemma_operands_chain(s: Seq<u8>, q: int, mn: Mnemonic, k: int, etype: Option<Data>)
    requires
        0 <= k <= 4,
    ensures
        operands_from(s, q, mn, k, etype) matches Ok((ops, end)) ==> {
            &&& end == q + total_len(ops)
            &&& k + ops.len() <= 4
            &&& ops.len() > 0 ==> operand_at(s, q, mn.ops[k], mn.dtype, etype) == Ok::<OperandModel, DecodeError>(ops[0])
            &&& forall|j: int|
                0 <= j < ops.len() - 1 ==> operand_at(s, #[trigger] ops[j].end, mn.ops[k + j + 1], mn.dtype, ops[j].expanded_type)
                    == Ok::<OperandModel, DecodeError>(ops[j + 1])
        },
    decreases 4 - k,
{
    if 0 <= k < 4 && mn.ops[k] != OpType::Unused {
        lemma_operand_bounds(s, q, mn.ops[k], mn.dtype, etype);
        if let Ok(o) = operand_at(s, q, mn.ops[k], mn.dtype, etype) {
            lemma_operands_chain(s, o.end, mn, k + 1, o.expanded_type);
            if let Ok((rest, end)) = operands_from(s, o.end, mn, k + 1, o.expanded_type) {
                let ops = seq![o] + rest;
                assert(operands_from(s, q, mn, k, etype) == Ok::<(Seq<OperandModel>, int), DecodeError>((ops, end)));
                assert(ops.drop_first() =~= rest);
                assert(end == q + total_len(ops));
                assert(ops.len() > 0 ==> operand_at(s, q, mn.ops[k], mn.dtype, etype) == Ok::<OperandModel, DecodeError>(ops[0]));
                assert(total_len(ops) == (o.end - o.start) + total_len(rest));
                assert forall|j: int| 0 <= j < ops.len() - 1 implies operand_at(
                    s,
                    #[trigger] ops[j].end,
                    mn.ops[k + j + 1],
                    mn.dtype,
                    ops[j].expanded_type,
                ) == Ok::<OperandModel, DecodeError>(ops[j + 1]) by {
                    assert(ops[j + 1] == rest[j]);
                    if j > 0 {
                        assert(ops[j] == rest[j - 1]);
                        let jj = j - 1;
                        assert(0 <= jj < rest.len() - 1);
                        assert(operand_at(s, rest[jj].end, mn.ops[k + 1 + jj + 1], mn.dtype, rest[jj].expanded_type)
                            == Ok::<OperandModel, DecodeError>(rest[jj + 1]));
                        assert(k + 1 + jj + 1 == k + j + 1);
                    } else {
                        assert(ops[0] == o);
                    }
                }
            }
        }
    }
}

/// Decoding an instruction takes exactly its opcode bytes (one, or two for
/// the `0x30` plane) followed by the bytes of each of its operands.
pub proof fn lemma_instruction_length(s: Seq<u8>, p: int)
    requires
        instruction_at(s, p) is Ok,
    ensures
        instruction_at(s, p)->Ok_0.end == p + opcode_width(s, p) + total_len(instruction_at(s, p)->Ok_0.operands),
{
    lemma_operands_chain(s, p + opcode_width(s, p), instruction_at(s, p)->Ok_0.mnemonic, 0, None);
}

/// Reserved descriptor encodings are rejected: register 11 under register
/// deferred mode and under each displacement mode, and an expanded-type
/// override whose selector is not 0, 2, 3, 4, 6, 7 or 15.
pub proof fn lemma_reserved_descriptors(s: Seq<u8>, p: int, dtype: Data, etype: Option<Data>)
    requires
        avail(s, p, 1),
        ({
            let m = s[p] / 16;
            let r = s[p] % 16;
            ||| (m == 5 || (8 <= m <= 13)) && r == 11
            ||| m == 14 && !(r == 0 || r == 2 || r == 3 || r == 4 || r == 6 || r == 7 || r == 15)
        }),
    ensures
        descriptor_operand(s, p, dtype, etype) == Err::<OperandModel, DecodeError>(DecodeError::ParseError),
{
}

/// Every descriptor that is neither reserved nor an override of the next
/// descriptor decodes, given the four bytes that may follow it.
pub proof fn lemma_legal_descriptors(s: Seq<u8>, p: int, dtype: Data, etype: Option<Data>)
    requires
        avail(s, p, 5),
        ({
            let m = s[p] / 16;
            let r = s[p] % 16;
            &&& !((m == 5 || (8 <= m <= 13)) && r == 11)
            &&& m == 14 ==> r == 15
        }),
    ensures
        descriptor_operand(s, p, dtype, etype) matches Ok(o) && o.start == p && o.data_type == dtype,
{
}

/// A descriptor that is not an override keeps the expanded type carried in.
proof fn lemma_plain_descriptor_keeps_etype(s: Seq<u8>, p: int, dtype: Data, etype: Option<Data>)
    requires
        avail(s, p, 1),
        s[p] / 16 != 14,
    ensures
        descriptor_operand(s, p, dtype, etype) matches Ok(m) ==> m.expanded_type == etype,
{
}

/// An override descriptor `0xE4` gives its operand the expanded type Word
/// (unless the descriptor after it overrides again), and the next operand of
/// the instruction is decoded with Word carried in.
pub proof fn lemma_expanded_type_carries(s: Seq<u8>, p: int, i: int)
    requires
        instruction_at(s, p) is Ok,
        0 <= i < instruction_at(s, p)->Ok_0.operands.len(),
        instruction_at(s, p)->Ok_0.mnemonic.ops[i] != OpType::Lit,
        s[instruction_at(s, p)->Ok_0.operands[i].start] == 0xE4,
        s[instruction_at(s, p)->Ok_0.operands[i].start + 1] / 16 != 14,
    ensures
        ({
            let d = instruction_at(s, p)->Ok_0;
            &&& d.operands[i].expanded_type == Some(Data::Word)
            &&& i + 1 < d.operands.len() ==> operand_at(
                s,
                d.operands[i].end,
                d.mnemonic.ops[i + 1],
                d.mnemonic.dtype,
                Some(Data::Word),
            ) == Ok::<OperandModel, DecodeError>(d.operands[i + 1])
        }),
{
    let d = instruction_at(s, p)->Ok_0;
    let q = p + opcode_width(s, p);
    let mn = d.mnemonic;
    assert(operands_from(s, q, mn, 0, None) == Ok::<(Seq<OperandModel>, int), DecodeError>((d.operands, d.end)));
    lemma_operands_chain(s, q, mn, 0, None);
    let carried = if i == 0 {
        None
    } else {
        d.operands[i - 1].expanded_type
    };
    let at = if i == 0 {
        q
    } else {
        d.operands[i - 1].end
    };
    if i > 0 {
        let j = i - 1;
        assert(operand_at(s, d.operands[j].end, mn.ops[0 + j + 1], mn.dtype, d.operands[j].expanded_type)
            == Ok::<OperandModel, DecodeError>(d.operands[j + 1]));
        assert(0 + j + 1 == i);
    }
    assert(operand_at(s, at, mn.ops[i], mn.dtype, carried) == Ok::<OperandModel, DecodeError>(d.operands[i]));
    lemma_operand_bounds(s, at, mn.ops[i], mn.dtype, carried);
    let st = d.operands[i].start;
    assert(st == at);
    assert(s[st] / 16 == 14 && s[st] % 16 == 4);
    assert(expanded_type_of(4) == Some(Data::Word));
    lemma_plain_descriptor_keeps_etype(s, st + 1, mn.dtype, Some(Data::Word));
    if i + 1 < d.operands.len() {
        assert(operand_at(s, d.operands[i].end, mn.ops[0 + i + 1], mn.dtype, d.operands[i].expanded_type)
            == Ok::<OperandModel, DecodeError>(d.operands[i + 1]));
    }
}

} // verus!
