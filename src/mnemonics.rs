use vstd::prelude::*;

use crate::decode::{Data, Mnemonic, OpType};

verus! {

/// The mnemonic with the given fields.
pub open spec fn mnemonic(opcode: u16, dtype: Data, name: &'static str, ops: [OpType; 4]) -> Mnemonic {
    Mnemonic { opcode, dtype, name, ops }
}

fn mn(opcode: u16, dtype: Data, name: &'static str, ops: [OpType; 4]) -> (r: Mnemonic)
    ensures
        r == mnemonic(opcode, dtype, name, ops),
{
    Mnemonic { opcode, dtype, name, ops }
}

/// The one-byte opcode plane: the mnemonic of each opcode byte, where one is assigned.
#[verifier::opaque]
pub open spec fn byte_table(op: u8) -> Option<Mnemonic> {
    match op {
        0x00 => Some(mnemonic(0x00, Data::Untyped, "halt", [OpType::Unused, OpType::Unused, OpType::Unused, OpType::Unused])),
        0x02 => Some(mnemonic(0x02, Data::Word, "SPOPRD", [OpType::Lit, OpType::Src, OpType::Unused, OpType::Unused])),
        0x03 => Some(mnemonic(0x03, Data::Word, "SPOPRD2", [OpType::Lit, OpType::Src, OpType::Dest, OpType::Unused])),
        0x04 => Some(mnemonic(0x04, Data::Word, "MOVAW", [OpType::Src, OpType::Dest, OpType::Unused, OpType::Unused])),
        0x06 => Some(mnemonic(0x06, Data::Word, "SPOPRT", [OpType::Lit, OpType::Src, OpType::Unused, OpType::Unused])),
        0x07 => Some(mnemonic(0x07, Data::Word, "SPOPT2", [OpType::Lit, OpType::Src, OpType::Dest, OpType::Unused])),
        0x08 => Some(mnemonic(0x08, Data::Untyped, "RET", [OpType::Unused, OpType::Unused, OpType::Unused, OpType::Unused])),
        0x0C => Some(mnemonic(0x0C, Data::Word, "MOVTRW", [OpType::Src, OpType::Dest, OpType::Unused, OpType::Unused])),
        0x10 => Some(mnemonic(0x10, Data::Word, "SAVE", [OpType::Src, OpType::Unused, OpType::Unused, OpType::Unused])),
        0x13 => Some(mnemonic(0x13, Data::Word, "SPOPWD", [OpType::Lit, OpType::Dest, OpType::Unused, OpType::Unused])),
        0x14 => Some(mnemonic(0x14, Data::Byte, "EXTOP", [OpType::Unused, OpType::Unused, OpType::Unused, OpType::Unused])),
        0x17 => Some(mnemonic(0x17, Data::Word, "SPOPWT", [OpType::Lit, OpType::Dest, OpType::Unused, OpType::Unused])),
        0x18 => Some(mnemonic(0x18, Data::Untyped, "RESTORE", [OpType::Src, OpType::Unused, OpType::Unused, OpType::Unused])),
        0x1C => Some(mnemonic(0x1C, Data::Word, "SWAPWI", [OpType::Dest, OpType::Unused, OpType::Unused, OpType::Unused])),
        0x1E => Some(mnemonic(0x1E, Data::Half, "SWAPHI", [OpType::Dest, OpType::Unused, OpType::Unused, OpType::Unused])),
        0x1F => Some(mnemonic(0x1F, Data::Byte, "SWAPBI", [OpType::Dest, OpType::Unused, OpType::Unused, OpType::Unused])),
        0x20 => Some(mnemonic(0x20, Data::Word, "POPW", [OpType::Src, OpType::Unused, OpType::Unused, OpType::Unused])),
        0x22 => Some(mnemonic(0x22, Data::Word, "SPOPRS", [OpType::Lit, OpType::Src, OpType::Unused, OpType::Unused])),
        0x23 => Some(mnemonic(0x23, Data::Word, "SPOPS2", [OpType::Lit, OpType::Src, OpType::Dest, OpType::Unused])),
        0x24 => Some(mnemonic(0x24, Data::Word, "JMP", [OpType::Dest, OpType::Unused, OpType::Unused, OpType::Unused])),
        0x27 => Some(mnemonic(0x27, Data::Untyped, "CFLUSH", [OpType::Unused, OpType::Unused, OpType::Unused, OpType::Unused])),
        0x28 => Some(mnemonic(0x28, Data::Word, "TSTW", [OpType::Src, OpType::Unused, OpType::Unused, OpType::Unused])),
        0x2A => Some(mnemonic(0x2A, Data::Half, "TSTH", [OpType::Src, OpType::Unused, OpType::Unused, OpType::Unused])),
        0x2B => Some(mnemonic(0x2B, Data::Byte, "TSTB", [OpType::Src, OpType::Unused, OpType::Unused, OpType::Unused])),
        0x2C => Some(mnemonic(0x2C, Data::Word, "CALL", [OpType::Src, OpType::Dest, OpType::Unused, OpType::Unused])),
        0x2E => Some(mnemonic(0x2E, Data::Untyped, "BPT", [OpType::Unused, OpType::Unused, OpType::Unused, OpType::Unused])),
        0x2F => Some(mnemonic(0x2F, Data::Untyped, "WAIT", [OpType::Unused, OpType::Unused, OpType::Unused, OpType::Unused])),
        0x32 => Some(mnemonic(0x32, Data::Word, "SPOP", [OpType::Lit, OpType::Unused, OpType::Unused, OpType::Unused])),
        0x33 => Some(mnemonic(0x33, Data::Word, "SPOPWS", [OpType::Lit, OpType::Dest, OpType::Unused, OpType::Unused])),
        0x34 => Some(mnemonic(0x34, Data::Word, "JSB", [OpType::Dest, OpType::Unused, OpType::Unused, OpType::Unused])),
        0x36 => Some(mnemonic(0x36, Data::Half, "BSBH", [OpType::Lit, OpType::Unused, OpType::Unused, OpType::Unused])),
        0x37 => Some(mnemonic(0x37, Data::Byte, "BSBB", [OpType::Lit, OpType::Unused, OpType::Unused, OpType::Unused])),
        0x38 => Some(mnemonic(0x38, Data::Word, "BITW", [OpType::Src, OpType::Src, OpType::Unused, OpType::Unused])),
        0x3A => Some(mnemonic(0x3A, Data::Half, "BITH", [OpType::Src, OpType::Src, OpType::Unused, OpType::Unused])),
        0x3B => Some(mnemonic(0x3B, Data::Byte, "BITB", [OpType::Src, OpType::Src, OpType::Unused, OpType::Unused])),
        0x3C => Some(mnemonic(0x3C, Data::Word, "CMPW", [OpType::Src, OpType::Src, OpType::Unused, OpType::Unused])),
        0x3E => Some(mnemonic(0x3E, Data::Half, "CMPH", [OpType::Src, OpType::Src, OpType::Unused, OpType::Unused])),
        0x3F => Some(mnemonic(0x3F, Data::Byte, "CMPB", [OpType::Src, OpType::Src, OpType::Unused, OpType::Unused])),
        0x40 => Some(mnemonic(0x40, Data::Untyped, "RGEQ", [OpType::Unused, OpType::Unused, OpType::Unused, OpType::Unused])),
        0x42 => Some(mnemonic(0x42, Data::Half, "BGEH", [OpType::Lit, OpType::Unused, OpType::Unused, OpType::Unused])),
        0x43 => Some(mnemonic(0x43, Data::Byte, "BGEB", [OpType::Lit, OpType::Unused, OpType::Unused, OpType::Unused])),
        0x44 => Some(mnemonic(0x44, Data::Untyped, "RGTR", [OpType::Unused, OpType::Unused, OpType::Unused, OpType::Unused])),
        0x46 => Some(mnemonic(0x46, Data::Half, "BGH", [OpType::Lit, OpType::Unused, OpType::Unused, OpType::Unused])),
        0x47 => Some(mnemonic(0x47, Data::Byte, "BGB", [OpType::Lit, OpType::Unused, OpType::Unused, OpType::Unused])),
        0x48 => Some(mnemonic(0x48, Data::Untyped, "RLSS", [OpType::Unused, OpType::Unused, OpType::Unused, OpType::Unused])),
        0x4A => Some(mnemonic(0x4A, Data::Half, "BLH", [OpType::Lit, OpType::Unused, OpType::Unused, OpType::Unused])),
        0x4B => Some(mnemonic(0x4B, Data::Byte, "BLB", [OpType::Lit, OpType::Unused, OpType::Unused, OpType::Unused])),
        0x4C => Some(mnemonic(0x4C, Data::Untyped, "RLEQ", [OpType::Unused, OpType::Unused, OpType::Unused, OpType::Unused])),
        0x4E => Some(mnemonic(0x4E, Data::Half, "BLEH", [OpType::Lit, OpType::Unused, OpType::Unused, OpType::Unused])),
        0x4F => Some(mnemonic(0x4F, Data::Byte, "BLEB", [OpType::Lit, OpType::Unused, OpType::Unused, OpType::Unused])),
        0x50 => Some(mnemonic(0x50, Data::Untyped, "RGEQU", [OpType::Unused, OpType::Unused, OpType::Unused, OpType::Unused])),
        0x52 => Some(mnemonic(0x52, Data::Half, "BGEUH", [OpType::Lit, OpType::Unused, OpType::Unused, OpType::Unused])),
        0x53 => Some(mnemonic(0x53, Data::Byte, "BGEUB", [OpType::Lit, OpType::Unused, OpType::Unused, OpType::Unused])),
        0x54 => Some(mnemonic(0x54, Data::Untyped, "RGTRU", [OpType::Unused, OpType::Unused, OpType::Unused, OpType::Unused])),
        0x56 => Some(mnemonic(0x56, Data::Half, "BGUH", [OpType::Lit, OpType::Unused, OpType::Unused, OpType::Unused])),
        0x57 => Some(mnemonic(0x57, Data::Byte, "BGUB", [OpType::Lit, OpType::Unused, OpType::Unused, OpType::Unused])),
        0x58 => Some(mnemonic(0x58, Data::Untyped, "RLSSU", [OpType::Unused, OpType::Unused, OpType::Unused, OpType::Unused])),
        0x5A => Some(mnemonic(0x5A, Data::Half, "BLUH", [OpType::Lit, OpType::Unused, OpType::Unused, OpType::Unused])),
        0x5B => Some(mnemonic(0x5B, Data::Byte, "BLUB", [OpType::Lit, OpType::Unused, OpType::Unused, OpType::Unused])),
        0x5C => Some(mnemonic(0x5C, Data::Untyped, "RLEQU", [OpType::Unused, OpType::Unused, OpType::Unused, OpType::Unused])),
        0x5E => Some(mnemonic(0x5E, Data::Half, "BLEUH", [OpType::Lit, OpType::Unused, OpType::Unused, OpType::Unused])),
        0x5F => Some(mnemonic(0x5F, Data::Byte, "BLEUB", [OpType::Lit, OpType::Unused, OpType::Unused, OpType::Unused])),
        0x60 => Some(mnemonic(0x60, Data::Untyped, "RVC", [OpType::Unused, OpType::Unused, OpType::Unused, OpType::Unused])),
        0x62 => Some(mnemonic(0x62, Data::Half, "BVCH", [OpType::Lit, OpType::Unused, OpType::Unused, OpType::Unused])),
        0x63 => Some(mnemonic(0x63, Data::Byte, "BVCB", [OpType::Lit, OpType::Unused, OpType::Unused, OpType::Unused])),
        0x64 => Some(mnemonic(0x64, Data::Untyped, "RNEQU", [OpType::Unused, OpType::Unused, OpType::Unused, OpType::Unused])),
        0x66 => Some(mnemonic(0x66, Data::Half, "BNEH", [OpType::Lit, OpType::Unused, OpType::Unused, OpType::Unused])),
        0x67 => Some(mnemonic(0x67, Data::Byte, "BNEB", [OpType::Lit, OpType::Unused, OpType::Unused, OpType::Unused])),
        0x68 => Some(mnemonic(0x68, Data::Untyped, "RVS", [OpType::Unused, OpType::Unused, OpType::Unused, OpType::Unused])),
        0x6A => Some(mnemonic(0x6A, Data::Half, "BVSH", [OpType::Lit, OpType::Unused, OpType::Unused, OpType::Unused])),
        0x6B => Some(mnemonic(0x6B, Data::Byte, "BVSB", [OpType::Lit, OpType::Unused, OpType::Unused, OpType::Unused])),
        0x6C => Some(mnemonic(0x6C, Data::Untyped, "REQLU", [OpType::Unused, OpType::Unused, OpType::Unused, OpType::Unused])),
        0x6E => Some(mnemonic(0x6E, Data::Half, "BEH", [OpType::Lit, OpType::Unused, OpType::Unused, OpType::Unused])),
        0x6F => Some(mnemonic(0x6F, Data::Byte, "BEB", [OpType::Lit, OpType::Unused, OpType::Unused, OpType::Unused])),
        0x70 => Some(mnemonic(0x70, Data::Untyped, "NOP", [OpType::Unused, OpType::Unused, OpType::Unused, OpType::Unused])),
        0x72 => Some(mnemonic(0x72, Data::Untyped, "NOP3", [OpType::Unused, OpType::Unused, OpType::Unused, OpType::Unused])),
        0x73 => Some(mnemonic(0x73, Data::Untyped, "NOP2", [OpType::Unused, OpType::Unused, OpType::Unused, OpType::Unused])),
        0x74 => Some(mnemonic(0x74, Data::Untyped, "RNEQ", [OpType::Unused, OpType::Unused, OpType::Unused, OpType::Unused])),
        0x76 => Some(mnemonic(0x76, Data::Half, "BNEH", [OpType::Lit, OpType::Unused, OpType::Unused, OpType::Unused])),
        0x77 => Some(mnemonic(0x77, Data::Byte, "BNEB", [OpType::Lit, OpType::Unused, OpType::Unused, OpType::Unused])),
        0x78 => Some(mnemonic(0x78, Data::Untyped, "RSB", [OpType::Unused, OpType::Unused, OpType::Unused, OpType::Unused])),
        0x7A => Some(mnemonic(0x7A, Data::Half, "BRH", [OpType::Lit, OpType::Unused, OpType::Unused, OpType::Unused])),
        0x7B => Some(mnemonic(0x7B, Data::Byte, "BRB", [OpType::Lit, OpType::Unused, OpType::Unused, OpType::Unused])),
        0x7C => Some(mnemonic(0x7C, Data::Untyped, "REQL", [OpType::Unused, OpType::Unused, OpType::Unused, OpType::Unused])),
        0x7E => Some(mnemonic(0x7E, Data::Half, "BEH", [OpType::Lit, OpType::Unused, OpType::Unused, OpType::Unused])),
        0x7F => Some(mnemonic(0x7F, Data::Byte, "BEB", [OpType::Lit, OpType::Unused, OpType::Unused, OpType::Unused])),
        0x80 => Some(mnemonic(0x80, Data::Word, "CLRW", [OpType::Dest, OpType::Unused, OpType::Unused, OpType::Unused])),
        0x82 => Some(mnemonic(0x82, Data::Half, "CLRH", [OpType::Dest, OpType::Unused, OpType::Unused, OpType::Unused])),
        0x83 => Some(mnemonic(0x83, Data::Byte, "CLRB", [OpType::Dest, OpType::Unused, OpType::Unused, OpType::Unused])),
        0x84 => Some(mnemonic(0x84, Data::Word, "MOVW", [OpType::Src, OpType::Dest, OpType::Unused, OpType::Unused])),
        0x86 => Some(mnemonic(0x86, Data::Half, "MOVH", [OpType::Src, OpType::Dest, OpType::Unused, OpType::Unused])),
        0x87 => Some(mnemonic(0x87, Data::Byte, "MOVB", [OpType::Src, OpType::Dest, OpType::Unused, OpType::Unused])),
        0x88 => Some(mnemonic(0x88, Data::Word, "MCOMW", [OpType::Src, OpType::Dest, OpType::Unused, OpType::Unused])),
        0x8A => Some(mnemonic(0x8A, Data::Half, "MCOMH", [OpType::Src, OpType::Dest, OpType::Unused, OpType::Unused])),
        0x8B => Some(mnemonic(0x8B, Data::Byte, "MCOMB", [OpType::Src, OpType::Dest, OpType::Unused, OpType::Unused])),
        0x8C => Some(mnemonic(0x8C, Data::Word, "MNEGW", [OpType::Src, OpType::Dest, OpType::Unused, OpType::Unused])),
        0x8E => Some(mnemonic(0x8E, Data::Half, "MNEGH", [OpType::Src, OpType::Dest, OpType::Unused, OpType::Unused])),
        0x8F => Some(mnemonic(0x8F, Data::Byte, "MNEGB", [OpType::Src, OpType::Dest, OpType::Unused, OpType::Unused])),
        0x90 => Some(mnemonic(0x90, Data::Word, "INCW", [OpType::Dest, OpType::Unused, OpType::Unused, OpType::Unused])),
        0x92 => Some(mnemonic(0x92, Data::Half, "INCH", [OpType::Dest, OpType::Unused, OpType::Unused, OpType::Unused])),
        0x93 => Some(mnemonic(0x93, Data::Byte, "INCB", [OpType::Dest, OpType::Unused, OpType::Unused, OpType::Unused])),
        0x94 => Some(mnemonic(0x94, Data::Word, "DECW", [OpType::Dest, OpType::Unused, OpType::Unused, OpType::Unused])),
        0x96 => Some(mnemonic(0x96, Data::Half, "DECH", [OpType::Dest, OpType::Unused, OpType::Unused, OpType::Unused])),
        0x97 => Some(mnemonic(0x97, Data::Byte, "DECB", [OpType::Dest, OpType::Unused, OpType::Unused, OpType::Unused])),
        0x9C => Some(mnemonic(0x9C, Data::Word, "ADDW2", [OpType::Src, OpType::Dest, OpType::Unused, OpType::Unused])),
        0x9E => Some(mnemonic(0x9E, Data::Half, "ADDH2", [OpType::Src, OpType::Dest, OpType::Unused, OpType::Unused])),
        0x9F => Some(mnemonic(0x9F, Data::Byte, "ADDB2", [OpType::Src, OpType::Dest, OpType::Unused, OpType::Unused])),
        0xA0 => Some(mnemonic(0xA0, Data::Word, "PUSHW", [OpType::Src, OpType::Unused, OpType::Unused, OpType::Unused])),
        0xA4 => Some(mnemonic(0xA4, Data::Word, "MODW2", [OpType::Src, OpType::Dest, OpType::Unused, OpType::Unused])),
        0xA6 => Some(mnemonic(0xA6, Data::Half, "MODH2", [OpType::Src, OpType::Dest, OpType::Unused, OpType::Unused])),
        0xA7 => Some(mnemonic(0xA7, Data::Byte, "MODB2", [OpType::Src, OpType::Dest, OpType::Unused, OpType::Unused])),
        0xA8 => Some(mnemonic(0xA8, Data::Word, "MULW2", [OpType::Src, OpType::Dest, OpType::Unused, OpType::Unused])),
        0xAA => Some(mnemonic(0xAA, Data::Half, "MULH2", [OpType::Src, OpType::Dest, OpType::Unused, OpType::Unused])),
        0xAB => Some(mnemonic(0xAB, Data::Byte, "MULB2", [OpType::Src, OpType::Dest, OpType::Unused, OpType::Unused])),
        0xAC => Some(mnemonic(0xAC, Data::Word, "DIVW2", [OpType::Src, OpType::Dest, OpType::Unused, OpType::Unused])),
        0xAE => Some(mnemonic(0xAE, Data::Half, "DIVH2", [OpType::Src, OpType::Dest, OpType::Unused, OpType::Unused])),
        0xAF => Some(mnemonic(0xAF, Data::Byte, "DIVB2", [OpType::Src, OpType::Dest, OpType::Unused, OpType::Unused])),
        0xB0 => Some(mnemonic(0xB0, Data::Word, "ORW2", [OpType::Src, OpType::Dest, OpType::Unused, OpType::Unused])),
        0xB2 => Some(mnemonic(0xB2, Data::Half, "ORH2", [OpType::Src, OpType::Dest, OpType::Unused, OpType::Unused])),
        0xB3 => Some(mnemonic(0xB3, Data::Byte, "ORB2", [OpType::Src, OpType::Dest, OpType::Unused, OpType::Unused])),
        0xB4 => Some(mnemonic(0xB4, Data::Word, "XORW2", [OpType::Src, OpType::Dest, OpType::Unused, OpType::Unused])),
        0xB6 => Some(mnemonic(0xB6, Data::Half, "XORH2", [OpType::Src, OpType::Dest, OpType::Unused, OpType::Unused])),
        0xB7 => Some(mnemonic(0xB7, Data::Byte, "XORB2", [OpType::Src, OpType::Dest, OpType::Unused, OpType::Unused])),
        0xB8 => Some(mnemonic(0xB8, Data::Word, "ANDW2", [OpType::Src, OpType::Dest, OpType::Unused, OpType::Unused])),
        0xBA => Some(mnemonic(0xBA, Data::Half, "ANDH2", [OpType::Src, OpType::Dest, OpType::Unused, OpType::Unused])),
        0xBB => Some(mnemonic(0xBB, Data::Byte, "ANDB2", [OpType::Src, OpType::Dest, OpType::Unused, OpType::Unused])),
        0xBC => Some(mnemonic(0xBC, Data::Word, "SUBW2", [OpType::Src, OpType::Dest, OpType::Unused, OpType::Unused])),
        0xBE => Some(mnemonic(0xBE, Data::Half, "SUBH2", [OpType::Src, OpType::Dest, OpType::Unused, OpType::Unused])),
        0xBF => Some(mnemonic(0xBF, Data::Byte, "SUBB2", [OpType::Src, OpType::Dest, OpType::Unused, OpType::Unused])),
        0xC0 => Some(mnemonic(0xC0, Data::Word, "ALSW3", [OpType::Src, OpType::Src, OpType::Dest, OpType::Unused])),
        0xC4 => Some(mnemonic(0xC4, Data::Word, "ARSW3", [OpType::Src, OpType::Src, OpType::Dest, OpType::Unused])),
        0xC6 => Some(mnemonic(0xC6, Data::Half, "ARSH3", [OpType::Src, OpType::Src, OpType::Dest, OpType::Unused])),
        0xC7 => Some(mnemonic(0xC7, Data::Byte, "ARSB3", [OpType::Src, OpType::Src, OpType::Dest, OpType::Unused])),
        0xC8 => Some(mnemonic(0xC8, Data::Word, "INSFW", [OpType::Src, OpType::Src, OpType::Src, OpType::Dest])),
        0xCA => Some(mnemonic(0xCA, Data::Half, "INSFH", [OpType::Src, OpType::Src, OpType::Src, OpType::Dest])),
        0xCB => Some(mnemonic(0xCB, Data::Byte, "INSFB", [OpType::Src, OpType::Src, OpType::Src, OpType::Dest])),
        0xCC => Some(mnemonic(0xCC, Data::Word, "EXTFW", [OpType::Src, OpType::Src, OpType::Src, OpType::Dest])),
        0xCE => Some(mnemonic(0xCE, Data::Half, "EXTFH", [OpType::Src, OpType::Src, OpType::Src, OpType::Dest])),
        0xCF => Some(mnemonic(0xCF, Data::Byte, "EXTFB", [OpType::Src, OpType::Src, OpType::Src, OpType::Dest])),
        0xD0 => Some(mnemonic(0xD0, Data::Word, "LLSW3", [OpType::Src, OpType::Src, OpType::Dest, OpType::Unused])),
        0xD2 => Some(mnemonic(0xD2, Data::Half, "LLSH3", [OpType::Src, OpType::Src, OpType::Dest, OpType::Unused])),
        0xD3 => Some(mnemonic(0xD3, Data::Byte, "LLSB3", [OpType::Src, OpType::Src, OpType::Dest, OpType::Unused])),
        0xD4 => Some(mnemonic(0xD4, Data::Word, "LRSW3", [OpType::Src, OpType::Src, OpType::Dest, OpType::Unused])),
        0xD8 => Some(mnemonic(0xD8, Data::Word, "ROTW", [OpType::Src, OpType::Src, OpType::Dest, OpType::Unused])),
        0xDC => Some(mnemonic(0xDC, Data::Word, "ADDW3", [OpType::Src, OpType::Src, OpType::Dest, OpType::Unused])),
        0xDE => Some(mnemonic(0xDE, Data::Half, "ADDH3", [OpType::Src, OpType::Src, OpType::Dest, OpType::Unused])),
        0xDF => Some(mnemonic(0xDF, Data::Byte, "ADDB3", [OpType::Src, OpType::Src, OpType::Dest, OpType::Unused])),
        0xE0 => Some(mnemonic(0xE0, Data::Word, "PUSHAW", [OpType::Src, OpType::Unused, OpType::Unused, OpType::Unused])),
        0xE4 => Some(mnemonic(0xE4, Data::Word, "MODW3", [OpType::Src, OpType::Src, OpType::Dest, OpType::Unused])),
        0xE6 => Some(mnemonic(0xE6, Data::Half, "MODH3", [OpType::Src, OpType::Src, OpType::Dest, OpType::Unused])),
        0xE7 => Some(mnemonic(0xE7, Data::Byte, "MODB3", [OpType::Src, OpType::Src, OpType::Dest, OpType::Unused])),
        0xE8 => Some(mnemonic(0xE8, Data::Word, "MULW3", [OpType::Src, OpType::Src, OpType::Dest, OpType::Unused])),
        0xEA => Some(mnemonic(0xEA, Data::Half, "MULH3", [OpType::Src, OpType::Src, OpType::Dest, OpType::Unused])),
        0xEB => Some(mnemonic(0xEB, Data::Byte, "MULB3", [OpType::Src, OpType::Src, OpType::Dest, OpType::Unused])),
        0xEC => Some(mnemonic(0xEC, Data::Word, "DIVW3", [OpType::Src, OpType::Src, OpType::Dest, OpType::Unused])),
        0xEE => Some(mnemonic(0xEE, Data::Half, "DIVH3", [OpType::Src, OpType::Src, OpType::Dest, OpType::Unused])),
        0xEF => Some(mnemonic(0xEF, Data::Byte, "DIVB3", [OpType::Src, OpType::Src, OpType::Dest, OpType::Unused])),
        0xF0 => Some(mnemonic(0xF0, Data::Word, "ORW3", [OpType::Src, OpType::Src, OpType::Dest, OpType::Unused])),
        0xF2 => Some(mnemonic(0xF2, Data::Half, "ORH3", [OpType::Src, OpType::Src, OpType::Dest, OpType::Unused])),
        0xF3 => Some(mnemonic(0xF3, Data::Byte, "ORB3", [OpType::Src, OpType::Src, OpType::Dest, OpType::Unused])),
        0xF4 => Some(mnemonic(0xF4, Data::Word, "XORW3", [OpType::Src, OpType::Src, OpType::Dest, OpType::Unused])),
        0xF6 => Some(mnemonic(0xF6, Data::Half, "XORH3", [OpType::Src, OpType::Src, OpType::Dest, OpType::Unused])),
        0xF7 => Some(mnemonic(0xF7, Data::Byte, "XORB3", [OpType::Src, OpType::Src, OpType::Dest, OpType::Unused])),
        0xF8 => Some(mnemonic(0xF8, Data::Word, "ANDW3", [OpType::Src, OpType::Src, OpType::Dest, OpType::Unused])),
        0xFA => Some(mnemonic(0xFA, Data::Half, "ANDH3", [OpType::Src, OpType::Src, OpType::Dest, OpType::Unused])),
        0xFB => Some(mnemonic(0xFB, Data::Byte, "ANDB3", [OpType::Src, OpType::Src, OpType::Dest, OpType::Unused])),
        0xFC => Some(mnemonic(0xFC, Data::Word, "SUBW3", [OpType::Src, OpType::Src, OpType::Dest, OpType::Unused])),
        0xFE => Some(mnemonic(0xFE, Data::Half, "SUBH3", [OpType::Src, OpType::Src, OpType::Dest, OpType::Unused])),
        0xFF => Some(mnemonic(0xFF, Data::Byte, "SUBB3", [OpType::Src, OpType::Src, OpType::Dest, OpType::Unused])),
        _ => None,
    }
}

/// Looks up a one-byte opcode.
#[verifier::rlimit(100)]
pub fn byte_mnemonic(op: u8) -> (r: Option<Mnemonic>)
    ensures
        r == byte_table(op),
{
    reveal(byte_table);
    match op {
        0x00 => Some(mn(0x00, Data::Untyped, "halt", [OpType::Unused, OpType::Unused, OpType::Unused, OpType::Unused])),
        0x02 => Some(mn(0x02, Data::Word, "SPOPRD", [OpType::Lit, OpType::Src, OpType::Unused, OpType::Unused])),
        0x03 => Some(mn(0x03, Data::Word, "SPOPRD2", [OpType::Lit, OpType::Src, OpType::Dest, OpType::Unused])),
        0x04 => Some(mn(0x04, Data::Word, "MOVAW", [OpType::Src, OpType::Dest, OpType::Unused, OpType::Unused])),
        0x06 => Some(mn(0x06, Data::Word, "SPOPRT", [OpType::Lit, OpType::Src, OpType::Unused, OpType::Unused])),
        0x07 => Some(mn(0x07, Data::Word, "SPOPT2", [OpType::Lit, OpType::Src, OpType::Dest, OpType::Unused])),
        0x08 => Some(mn(0x08, Data::Untyped, "RET", [OpType::Unused, OpType::Unused, OpType::Unused, OpType::Unused])),
        0x0C => Some(mn(0x0C, Data::Word, "MOVTRW", [OpType::Src, OpType::Dest, OpType::Unused, OpType::Unused])),
        0x10 => Some(mn(0x10, Data::Word, "SAVE", [OpType::Src, OpType::Unused, OpType::Unused, OpType::Unused])),
        0x13 => Some(mn(0x13, Data::Word, "SPOPWD", [OpType::Lit, OpType::Dest, OpType::Unused, OpType::Unused])),
        0x14 => Some(mn(0x14, Data::Byte, "EXTOP", [OpType::Unused, OpType::Unused, OpType::Unused, OpType::Unused])),
        0x17 => Some(mn(0x17, Data::Word, "SPOPWT", [OpType::Lit, OpType::Dest, OpType::Unused, OpType::Unused])),
        0x18 => Some(mn(0x18, Data::Untyped, "RESTORE", [OpType::Src, OpType::Unused, OpType::Unused, OpType::Unused])),
        0x1C => Some(mn(0x1C, Data::Word, "SWAPWI", [OpType::Dest, OpType::Unused, OpType::Unused, OpType::Unused])),
        0x1E => Some(mn(0x1E, Data::Half, "SWAPHI", [OpType::Dest, OpType::Unused, OpType::Unused, OpType::Unused])),
        0x1F => Some(mn(0x1F, Data::Byte, "SWAPBI", [OpType::Dest, OpType::Unused, OpType::Unused, OpType::Unused])),
        0x20 => Some(mn(0x20, Data::Word, "POPW", [OpType::Src, OpType::Unused, OpType::Unused, OpType::Unused])),
        0x22 => Some(mn(0x22, Data::Word, "SPOPRS", [OpType::Lit, OpType::Src, OpType::Unused, OpType::Unused])),
        0x23 => Some(mn(0x23, Data::Word, "SPOPS2", [OpType::Lit, OpType::Src, OpType::Dest, OpType::Unused])),
        0x24 => Some(mn(0x24, Data::Word, "JMP", [OpType::Dest, OpType::Unused, OpType::Unused, OpType::Unused])),
        0x27 => Some(mn(0x27, Data::Untyped, "CFLUSH", [OpType::Unused, OpType::Unused, OpType::Unused, OpType::Unused])),
        0x28 => Some(mn(0x28, Data::Word, "TSTW", [OpType::Src, OpType::Unused, OpType::Unused, OpType::Unused])),
        0x2A => Some(mn(0x2A, Data::Half, "TSTH", [OpType::Src, OpType::Unused, OpType::Unused, OpType::Unused])),
        0x2B => Some(mn(0x2B, Data::Byte, "TSTB", [OpType::Src, OpType::Unused, OpType::Unused, OpType::Unused])),
        0x2C => Some(mn(0x2C, Data::Word, "CALL", [OpType::Src, OpType::Dest, OpType::Unused, OpType::Unused])),
        0x2E => Some(mn(0x2E, Data::Untyped, "BPT", [OpType::Unused, OpType::Unused, OpType::Unused, OpType::Unused])),
        0x2F => Some(mn(0x2F, Data::Untyped, "WAIT", [OpType::Unused, OpType::Unused, OpType::Unused, OpType::Unused])),
        0x32 => Some(mn(0x32, Data::Word, "SPOP", [OpType::Lit, OpType::Unused, OpType::Unused, OpType::Unused])),
        0x33 => Some(mn(0x33, Data::Word, "SPOPWS", [OpType::Lit, OpType::Dest, OpType::Unused, OpType::Unused])),
        0x34 => Some(mn(0x34, Data::Word, "JSB", [OpType::Dest, OpType::Unused, OpType::Unused, OpType::Unused])),
        0x36 => Some(mn(0x36, Data::Half, "BSBH", [OpType::Lit, OpType::Unused, OpType::Unused, OpType::Unused])),
        0x37 => Some(mn(0x37, Data::Byte, "BSBB", [OpType::Lit, OpType::Unused, OpType::Unused, OpType::Unused])),
        0x38 => Some(mn(0x38, Data::Word, "BITW", [OpType::Src, OpType::Src, OpType::Unused, OpType::Unused])),
        0x3A => Some(mn(0x3A, Data::Half, "BITH", [OpType::Src, OpType::Src, OpType::Unused, OpType::Unused])),
        0x3B => Some(mn(0x3B, Data::Byte, "BITB", [OpType::Src, OpType::Src, OpType::Unused, OpType::Unused])),
        0x3C => Some(mn(0x3C, Data::Word, "CMPW", [OpType::Src, OpType::Src, OpType::Unused, OpType::Unused])),
        0x3E => Some(mn(0x3E, Data::Half, "CMPH", [OpType::Src, OpType::Src, OpType::Unused, OpType::Unused])),
        0x3F => Some(mn(0x3F, Data::Byte, "CMPB", [OpType::Src, OpType::Src, OpType::Unused, OpType::Unused])),
        0x40 => Some(mn(0x40, Data::Untyped, "RGEQ", [OpType::Unused, OpType::Unused, OpType::Unused, OpType::Unused])),
        0x42 => Some(mn(0x42, Data::Half, "BGEH", [OpType::Lit, OpType::Unused, OpType::Unused, OpType::Unused])),
        0x43 => Some(mn(0x43, Data::Byte, "BGEB", [OpType::Lit, OpType::Unused, OpType::Unused, OpType::Unused])),
        0x44 => Some(mn(0x44, Data::Untyped, "RGTR", [OpType::Unused, OpType::Unused, OpType::Unused, OpType::Unused])),
        0x46 => Some(mn(0x46, Data::Half, "BGH", [OpType::Lit, OpType::Unused, OpType::Unused, OpType::Unused])),
        0x47 => Some(mn(0x47, Data::Byte, "BGB", [OpType::Lit, OpType::Unused, OpType::Unused, OpType::Unused])),
        0x48 => Some(mn(0x48, Data::Untyped, "RLSS", [OpType::Unused, OpType::Unused, OpType::Unused, OpType::Unused])),
        0x4A => Some(mn(0x4A, Data::Half, "BLH", [OpType::Lit, OpType::Unused, OpType::Unused, OpType::Unused])),
        0x4B => Some(mn(0x4B, Data::Byte, "BLB", [OpType::Lit, OpType::Unused, OpType::Unused, OpType::Unused])),
        0x4C => Some(mn(0x4C, Data::Untyped, "RLEQ", [OpType::Unused, OpType::Unused, OpType::Unused, OpType::Unused])),
        0x4E => Some(mn(0x4E, Data::Half, "BLEH", [OpType::Lit, OpType::Unused, OpType::Unused, OpType::Unused])),
        0x4F => Some(mn(0x4F, Data::Byte, "BLEB", [OpType::Lit, OpType::Unused, OpType::Unused, OpType::Unused])),
        0x50 => Some(mn(0x50, Data::Untyped, "RGEQU", [OpType::Unused, OpType::Unused, OpType::Unused, OpType::Unused])),
        0x52 => Some(mn(0x52, Data::Half, "BGEUH", [OpType::Lit, OpType::Unused, OpType::Unused, OpType::Unused])),
        0x53 => Some(mn(0x53, Data::Byte, "BGEUB", [OpType::Lit, OpType::Unused, OpType::Unused, OpType::Unused])),
        0x54 => Some(mn(0x54, Data::Untyped, "RGTRU", [OpType::Unused, OpType::Unused, OpType::Unused, OpType::Unused])),
        0x56 => Some(mn(0x56, Data::Half, "BGUH", [OpType::Lit, OpType::Unused, OpType::Unused, OpType::Unused])),
        0x57 => Some(mn(0x57, Data::Byte, "BGUB", [OpType::Lit, OpType::Unused, OpType::Unused, OpType::Unused])),
        0x58 => Some(mn(0x58, Data::Untyped, "RLSSU", [OpType::Unused, OpType::Unused, OpType::Unused, OpType::Unused])),
        0x5A => Some(mn(0x5A, Data::Half, "BLUH", [OpType::Lit, OpType::Unused, OpType::Unused, OpType::Unused])),
        0x5B => Some(mn(0x5B, Data::Byte, "BLUB", [OpType::Lit, OpType::Unused, OpType::Unused, OpType::Unused])),
        0x5C => Some(mn(0x5C, Data::Untyped, "RLEQU", [OpType::Unused, OpType::Unused, OpType::Unused, OpType::Unused])),
        0x5E => Some(mn(0x5E, Data::Half, "BLEUH", [OpType::Lit, OpType::Unused, OpType::Unused, OpType::Unused])),
        0x5F => Some(mn(0x5F, Data::Byte, "BLEUB", [OpType::Lit, OpType::Unused, OpType::Unused, OpType::Unused])),
        0x60 => Some(mn(0x60, Data::Untyped, "RVC", [OpType::Unused, OpType::Unused, OpType::Unused, OpType::Unused])),
        0x62 => Some(mn(0x62, Data::Half, "BVCH", [OpType::Lit, OpType::Unused, OpType::Unused, OpType::Unused])),
        0x63 => Some(mn(0x63, Data::Byte, "BVCB", [OpType::Lit, OpType::Unused, OpType::Unused, OpType::Unused])),
        0x64 => Some(mn(0x64, Data::Untyped, "RNEQU", [OpType::Unused, OpType::Unused, OpType::Unused, OpType::Unused])),
        0x66 => Some(mn(0x66, Data::Half, "BNEH", [OpType::Lit, OpType::Unused, OpType::Unused, OpType::Unused])),
        0x67 => Some(mn(0x67, Data::Byte, "BNEB", [OpType::Lit, OpType::Unused, OpType::Unused, OpType::Unused])),
        0x68 => Some(mn(0x68, Data::Untyped, "RVS", [OpType::Unused, OpType::Unused, OpType::Unused, OpType::Unused])),
        0x6A => Some(mn(0x6A, Data::Half, "BVSH", [OpType::Lit, OpType::Unused, OpType::Unused, OpType::Unused])),
        0x6B => Some(mn(0x6B, Data::Byte, "BVSB", [OpType::Lit, OpType::Unused, OpType::Unused, OpType::Unused])),
        0x6C => Some(mn(0x6C, Data::Untyped, "REQLU", [OpType::Unused, OpType::Unused, OpType::Unused, OpType::Unused])),
        0x6E => Some(mn(0x6E, Data::Half, "BEH", [OpType::Lit, OpType::Unused, OpType::Unused, OpType::Unused])),
        0x6F => Some(mn(0x6F, Data::Byte, "BEB", [OpType::Lit, OpType::Unused, OpType::Unused, OpType::Unused])),
        0x70 => Some(mn(0x70, Data::Untyped, "NOP", [OpType::Unused, OpType::Unused, OpType::Unused, OpType::Unused])),
        0x72 => Some(mn(0x72, Data::Untyped, "NOP3", [OpType::Unused, OpType::Unused, OpType::Unused, OpType::Unused])),
        0x73 => Some(mn(0x73, Data::Untyped, "NOP2", [OpType::Unused, OpType::Unused, OpType::Unused, OpType::Unused])),
        0x74 => Some(mn(0x74, Data::Untyped, "RNEQ", [OpType::Unused, OpType::Unused, OpType::Unused, OpType::Unused])),
        0x76 => Some(mn(0x76, Data::Half, "BNEH", [OpType::Lit, OpType::Unused, OpType::Unused, OpType::Unused])),
        0x77 => Some(mn(0x77, Data::Byte, "BNEB", [OpType::Lit, OpType::Unused, OpType::Unused, OpType::Unused])),
        0x78 => Some(mn(0x78, Data::Untyped, "RSB", [OpType::Unused, OpType::Unused, OpType::Unused, OpType::Unused])),
        0x7A => Some(mn(0x7A, Data::Half, "BRH", [OpType::Lit, OpType::Unused, OpType::Unused, OpType::Unused])),
        0x7B => Some(mn(0x7B, Data::Byte, "BRB", [OpType::Lit, OpType::Unused, OpType::Unused, OpType::Unused])),
        0x7C => Some(mn(0x7C, Data::Untyped, "REQL", [OpType::Unused, OpType::Unused, OpType::Unused, OpType::Unused])),
        0x7E => Some(mn(0x7E, Data::Half, "BEH", [OpType::Lit, OpType::Unused, OpType::Unused, OpType::Unused])),
        0x7F => Some(mn(0x7F, Data::Byte, "BEB", [OpType::Lit, OpType::Unused, OpType::Unused, OpType::Unused])),
        0x80 => Some(mn(0x80, Data::Word, "CLRW", [OpType::Dest, OpType::Unused, OpType::Unused, OpType::Unused])),
        0x82 => Some(mn(0x82, Data::Half, "CLRH", [OpType::Dest, OpType::Unused, OpType::Unused, OpType::Unused])),
        0x83 => Some(mn(0x83, Data::Byte, "CLRB", [OpType::Dest, OpType::Unused, OpType::Unused, OpType::Unused])),
        0x84 => Some(mn(0x84, Data::Word, "MOVW", [OpType::Src, OpType::Dest, OpType::Unused, OpType::Unused])),
        0x86 => Some(mn(0x86, Data::Half, "MOVH", [OpType::Src, OpType::Dest, OpType::Unused, OpType::Unused])),
        0x87 => Some(mn(0x87, Data::Byte, "MOVB", [OpType::Src, OpType::Dest, OpType::Unused, OpType::Unused])),
        0x88 => Some(mn(0x88, Data::Word, "MCOMW", [OpType::Src, OpType::Dest, OpType::Unused, OpType::Unused])),
        0x8A => Some(mn(0x8A, Data::Half, "MCOMH", [OpType::Src, OpType::Dest, OpType::Unused, OpType::Unused])),
        0x8B => Some(mn(0x8B, Data::Byte, "MCOMB", [OpType::Src, OpType::Dest, OpType::Unused, OpType::Unused])),
        0x8C => Some(mn(0x8C, Data::Word, "MNEGW", [OpType::Src, OpType::Dest, OpType::Unused, OpType::Unused])),
        0x8E => Some(mn(0x8E, Data::Half, "MNEGH", [OpType::Src, OpType::Dest, OpType::Unused, OpType::Unused])),
        0x8F => Some(mn(0x8F, Data::Byte, "MNEGB", [OpType::Src, OpType::Dest, OpType::Unused, OpType::Unused])),
        0x90 => Some(mn(0x90, Data::Word, "INCW", [OpType::Dest, OpType::Unused, OpType::Unused, OpType::Unused])),
        0x92 => Some(mn(0x92, Data::Half, "INCH", [OpType::Dest, OpType::Unused, OpType::Unused, OpType::Unused])),
        0x93 => Some(mn(0x93, Data::Byte, "INCB", [OpType::Dest, OpType::Unused, OpType::Unused, OpType::Unused])),
        0x94 => Some(mn(0x94, Data::Word, "DECW", [OpType::Dest, OpType::Unused, OpType::Unused, OpType::Unused])),
        0x96 => Some(mn(0x96, Data::Half, "DECH", [OpType::Dest, OpType::Unused, OpType::Unused, OpType::Unused])),
        0x97 => Some(mn(0x97, Data::Byte, "DECB", [OpType::Dest, OpType::Unused, OpType::Unused, OpType::Unused])),
        0x9C => Some(mn(0x9C, Data::Word, "ADDW2", [OpType::Src, OpType::Dest, OpType::Unused, OpType::Unused])),
        0x9E => Some(mn(0x9E, Data::Half, "ADDH2", [OpType::Src, OpType::Dest, OpType::Unused, OpType::Unused])),
        0x9F => Some(mn(0x9F, Data::Byte, "ADDB2", [OpType::Src, OpType::Dest, OpType::Unused, OpType::Unused])),
        0xA0 => Some(mn(0xA0, Data::Word, "PUSHW", [OpType::Src, OpType::Unused, OpType::Unused, OpType::Unused])),
        0xA4 => Some(mn(0xA4, Data::Word, "MODW2", [OpType::Src, OpType::Dest, OpType::Unused, OpType::Unused])),
        0xA6 => Some(mn(0xA6, Data::Half, "MODH2", [OpType::Src, OpType::Dest, OpType::Unused, OpType::Unused])),
        0xA7 => Some(mn(0xA7, Data::Byte, "MODB2", [OpType::Src, OpType::Dest, OpType::Unused, OpType::Unused])),
        0xA8 => Some(mn(0xA8, Data::Word, "MULW2", [OpType::Src, OpType::Dest, OpType::Unused, OpType::Unused])),
        0xAA => Some(mn(0xAA, Data::Half, "MULH2", [OpType::Src, OpType::Dest, OpType::Unused, OpType::Unused])),
        0xAB => Some(mn(0xAB, Data::Byte, "MULB2", [OpType::Src, OpType::Dest, OpType::Unused, OpType::Unused])),
        0xAC => Some(mn(0xAC, Data::Word, "DIVW2", [OpType::Src, OpType::Dest, OpType::Unused, OpType::Unused])),
        0xAE => Some(mn(0xAE, Data::Half, "DIVH2", [OpType::Src, OpType::Dest, OpType::Unused, OpType::Unused])),
        0xAF => Some(mn(0xAF, Data::Byte, "DIVB2", [OpType::Src, OpType::Dest, OpType::Unused, OpType::Unused])),
        0xB0 => Some(mn(0xB0, Data::Word, "ORW2", [OpType::Src, OpType::Dest, OpType::Unused, OpType::Unused])),
        0xB2 => Some(mn(0xB2, Data::Half, "ORH2", [OpType::Src, OpType::Dest, OpType::Unused, OpType::Unused])),
        0xB3 => Some(mn(0xB3, Data::Byte, "ORB2", [OpType::Src, OpType::Dest, OpType::Unused, OpType::Unused])),
        0xB4 => Some(mn(0xB4, Data::Word, "XORW2", [OpType::Src, OpType::Dest, OpType::Unused, OpType::Unused])),
        0xB6 => Some(mn(0xB6, Data::Half, "XORH2", [OpType::Src, OpType::Dest, OpType::Unused, OpType::Unused])),
        0xB7 => Some(mn(0xB7, Data::Byte, "XORB2", [OpType::Src, OpType::Dest, OpType::Unused, OpType::Unused])),
        0xB8 => Some(mn(0xB8, Data::Word, "ANDW2", [OpType::Src, OpType::Dest, OpType::Unused, OpType::Unused])),
        0xBA => Some(mn(0xBA, Data::Half, "ANDH2", [OpType::Src, OpType::Dest, OpType::Unused, OpType::Unused])),
        0xBB => Some(mn(0xBB, Data::Byte, "ANDB2", [OpType::Src, OpType::Dest, OpType::Unused, OpType::Unused])),
        0xBC => Some(mn(0xBC, Data::Word, "SUBW2", [OpType::Src, OpType::Dest, OpType::Unused, OpType::Unused])),
        0xBE => Some(mn(0xBE, Data::Half, "SUBH2", [OpType::Src, OpType::Dest, OpType::Unused, OpType::Unused])),
        0xBF => Some(mn(0xBF, Data::Byte, "SUBB2", [OpType::Src, OpType::Dest, OpType::Unused, OpType::Unused])),
        0xC0 => Some(mn(0xC0, Data::Word, "ALSW3", [OpType::Src, OpType::Src, OpType::Dest, OpType::Unused])),
        0xC4 => Some(mn(0xC4, Data::Word, "ARSW3", [OpType::Src, OpType::Src, OpType::Dest, OpType::Unused])),
        0xC6 => Some(mn(0xC6, Data::Half, "ARSH3", [OpType::Src, OpType::Src, OpType::Dest, OpType::Unused])),
        0xC7 => Some(mn(0xC7, Data::Byte, "ARSB3", [OpType::Src, OpType::Src, OpType::Dest, OpType::Unused])),
        0xC8 => Some(mn(0xC8, Data::Word, "INSFW", [OpType::Src, OpType::Src, OpType::Src, OpType::Dest])),
        0xCA => Some(mn(0xCA, Data::Half, "INSFH", [OpType::Src, OpType::Src, OpType::Src, OpType::Dest])),
        0xCB => Some(mn(0xCB, Data::Byte, "INSFB", [OpType::Src, OpType::Src, OpType::Src, OpType::Dest])),
        0xCC => Some(mn(0xCC, Data::Word, "EXTFW", [OpType::Src, OpType::Src, OpType::Src, OpType::Dest])),
        0xCE => Some(mn(0xCE, Data::Half, "EXTFH", [OpType::Src, OpType::Src, OpType::Src, OpType::Dest])),
        0xCF => Some(mn(0xCF, Data::Byte, "EXTFB", [OpType::Src, OpType::Src, OpType::Src, OpType::Dest])),
        0xD0 => Some(mn(0xD0, Data::Word, "LLSW3", [OpType::Src, OpType::Src, OpType::Dest, OpType::Unused])),
        0xD2 => Some(mn(0xD2, Data::Half, "LLSH3", [OpType::Src, OpType::Src, OpType::Dest, OpType::Unused])),
        0xD3 => Some(mn(0xD3, Data::Byte, "LLSB3", [OpType::Src, OpType::Src, OpType::Dest, OpType::Unused])),
        0xD4 => Some(mn(0xD4, Data::Word, "LRSW3", [OpType::Src, OpType::Src, OpType::Dest, OpType::Unused])),
        0xD8 => Some(mn(0xD8, Data::Word, "ROTW", [OpType::Src, OpType::Src, OpType::Dest, OpType::Unused])),
        0xDC => Some(mn(0xDC, Data::Word, "ADDW3", [OpType::Src, OpType::Src, OpType::Dest, OpType::Unused])),
        0xDE => Some(mn(0xDE, Data::Half, "ADDH3", [OpType::Src, OpType::Src, OpType::Dest, OpType::Unused])),
        0xDF => Some(mn(0xDF, Data::Byte, "ADDB3", [OpType::Src, OpType::Src, OpType::Dest, OpType::Unused])),
        0xE0 => Some(mn(0xE0, Data::Word, "PUSHAW", [OpType::Src, OpType::Unused, OpType::Unused, OpType::Unused])),
        0xE4 => Some(mn(0xE4, Data::Word, "MODW3", [OpType::Src, OpType::Src, OpType::Dest, OpType::Unused])),
        0xE6 => Some(mn(0xE6, Data::Half, "MODH3", [OpType::Src, OpType::Src, OpType::Dest, OpType::Unused])),
        0xE7 => Some(mn(0xE7, Data::Byte, "MODB3", [OpType::Src, OpType::Src, OpType::Dest, OpType::Unused])),
        0xE8 => Some(mn(0xE8, Data::Word, "MULW3", [OpType::Src, OpType::Src, OpType::Dest, OpType::Unused])),
        0xEA => Some(mn(0xEA, Data::Half, "MULH3", [OpType::Src, OpType::Src, OpType::Dest, OpType::Unused])),
        0xEB => Some(mn(0xEB, Data::Byte, "MULB3", [OpType::Src, OpType::Src, OpType::Dest, OpType::Unused])),
        0xEC => Some(mn(0xEC, Data::Word, "DIVW3", [OpType::Src, OpType::Src, OpType::Dest, OpType::Unused])),
        0xEE => Some(mn(0xEE, Data::Half, "DIVH3", [OpType::Src, OpType::Src, OpType::Dest, OpType::Unused])),
        0xEF => Some(mn(0xEF, Data::Byte, "DIVB3", [OpType::Src, OpType::Src, OpType::Dest, OpType::Unused])),
        0xF0 => Some(mn(0xF0, Data::Word, "ORW3", [OpType::Src, OpType::Src, OpType::Dest, OpType::Unused])),
        0xF2 => Some(mn(0xF2, Data::Half, "ORH3", [OpType::Src, OpType::Src, OpType::Dest, OpType::Unused])),
        0xF3 => Some(mn(0xF3, Data::Byte, "ORB3", [OpType::Src, OpType::Src, OpType::Dest, OpType::Unused])),
        0xF4 => Some(mn(0xF4, Data::Word, "XORW3", [OpType::Src, OpType::Src, OpType::Dest, OpType::Unused])),
        0xF6 => Some(mn(0xF6, Data::Half, "XORH3", [OpType::Src, OpType::Src, OpType::Dest, OpType::Unused])),
        0xF7 => Some(mn(0xF7, Data::Byte, "XORB3", [OpType::Src, OpType::Src, OpType::Dest, OpType::Unused])),
        0xF8 => Some(mn(0xF8, Data::Word, "ANDW3", [OpType::Src, OpType::Src, OpType::Dest, OpType::Unused])),
        0xFA => Some(mn(0xFA, Data::Half, "ANDH3", [OpType::Src, OpType::Src, OpType::Dest, OpType::Unused])),
        0xFB => Some(mn(0xFB, Data::Byte, "ANDB3", [OpType::Src, OpType::Src, OpType::Dest, OpType::Unused])),
        0xFC => Some(mn(0xFC, Data::Word, "SUBW3", [OpType::Src, OpType::Src, OpType::Dest, OpType::Unused])),
        0xFE => Some(mn(0xFE, Data::Half, "SUBH3", [OpType::Src, OpType::Src, OpType::Dest, OpType::Unused])),
        0xFF => Some(mn(0xFF, Data::Byte, "SUBB3", [OpType::Src, OpType::Src, OpType::Dest, OpType::Unused])),
        _ => None,
    }
}

/// The two-byte opcode plane: the mnemonic of opcode `0x3000 | low`, where one is assigned.
///
/// MOVBLW (`0x3019`) and STREND (`0x301F`) do not appear in the WE32100
/// instruction set reference and are suspect; they are kept as decoded so far.
#[verifier::opaque]
pub open spec fn halfword_table(low: u8) -> Option<Mnemonic> {
    match low {
        0x09 => Some(mnemonic(0x3009, Data::Untyped, "MVERNO", [OpType::Unused, OpType::Unused, OpType::Unused, OpType::Unused])),
        0x0D => Some(mnemonic(0x300D, Data::Untyped, "ENBVJMP", [OpType::Unused, OpType::Unused, OpType::Unused, OpType::Unused])),
        0x13 => Some(mnemonic(0x3013, Data::Untyped, "DISVJMP", [OpType::Unused, OpType::Unused, OpType::Unused, OpType::Unused])),
        0x19 => Some(mnemonic(0x3019, Data::Untyped, "MOVBLW", [OpType::Unused, OpType::Unused, OpType::Unused, OpType::Unused])),
        0x1F => Some(mnemonic(0x301F, Data::Untyped, "STREND", [OpType::Unused, OpType::Unused, OpType::Unused, OpType::Unused])),
        0x2F => Some(mnemonic(0x302F, Data::Untyped, "INTACK", [OpType::Unused, OpType::Unused, OpType::Unused, OpType::Unused])),
        0x3F => Some(mnemonic(0x303F, Data::Untyped, "STRCPY", [OpType::Unused, OpType::Unused, OpType::Unused, OpType::Unused])),
        0x45 => Some(mnemonic(0x3045, Data::Untyped, "RETG", [OpType::Unused, OpType::Unused, OpType::Unused, OpType::Unused])),
        0x61 => Some(mnemonic(0x3061, Data::Untyped, "GATE", [OpType::Unused, OpType::Unused, OpType::Unused, OpType::Unused])),
        0xAC => Some(mnemonic(0x30AC, Data::Untyped, "CALLPS", [OpType::Unused, OpType::Unused, OpType::Unused, OpType::Unused])),
        0xC8 => Some(mnemonic(0x30C8, Data::Untyped, "RETPS", [OpType::Unused, OpType::Unused, OpType::Unused, OpType::Unused])),
        _ => None,
    }
}

/// Looks up the opcode `0x3000 | low`.
pub fn halfword_mnemonic(low: u8) -> (r: Option<Mnemonic>)
    ensures
        r == halfword_table(low),
{
    reveal(halfword_table);
    match low {
        0x09 => Some(mn(0x3009, Data::Untyped, "MVERNO", [OpType::Unused, OpType::Unused, OpType::Unused, OpType::Unused])),
        0x0D => Some(mn(0x300D, Data::Untyped, "ENBVJMP", [OpType::Unused, OpType::Unused, OpType::Unused, OpType::Unused])),
        0x13 => Some(mn(0x3013, Data::Untyped, "DISVJMP", [OpType::Unused, OpType::Unused, OpType::Unused, OpType::Unused])),
        0x19 => Some(mn(0x3019, Data::Untyped, "MOVBLW", [OpType::Unused, OpType::Unused, OpType::Unused, OpType::Unused])),
        0x1F => Some(mn(0x301F, Data::Untyped, "STREND", [OpType::Unused, OpType::Unused, OpType::Unused, OpType::Unused])),
        0x2F => Some(mn(0x302F, Data::Untyped, "INTACK", [OpType::Unused, OpType::Unused, OpType::Unused, OpType::Unused])),
        0x3F => Some(mn(0x303F, Data::Untyped, "STRCPY", [OpType::Unused, OpType::Unused, OpType::Unused, OpType::Unused])),
        0x45 => Some(mn(0x3045, Data::Untyped, "RETG", [OpType::Unused, OpType::Unused, OpType::Unused, OpType::Unused])),
        0x61 => Some(mn(0x3061, Data::Untyped, "GATE", [OpType::Unused, OpType::Unused, OpType::Unused, OpType::Unused])),
        0xAC => Some(mn(0x30AC, Data::Untyped, "CALLPS", [OpType::Unused, OpType::Unused, OpType::Unused, OpType::Unused])),
        0xC8 => Some(mn(0x30C8, Data::Untyped, "RETPS", [OpType::Unused, OpType::Unused, OpType::Unused, OpType::Unused])),
        _ => None,
    }
}

} // verus!
