use vstd::prelude::*;
use std::collections::HashMap;

verus! {

broadcast use vstd::std_specs::hash::group_hash_axioms;

/// A short list of WE32100 opcodes with their operand counts.
#[derive(Clone, Copy, Debug)]
pub struct Opcode {
    pub op: u16,
    /// The mnemonic, e.g. "MOVB".
    pub mnemonic: &'static str,
    /// The number of arguments.
    pub argc: u8,
}

/// The move instructions, keyed by opcode. The entry under `0x80` keeps the
/// opcode `0x81` that it has always carried.
pub fn get_opcodes() -> (r: HashMap<u16, Opcode>)
    ensures
        r@ == map![
            0x84u16 => Opcode { op: 0x84, mnemonic: "MOVW", argc: 2 },
            0x82u16 => Opcode { op: 0x82, mnemonic: "MOVH", argc: 2 },
            0x80u16 => Opcode { op: 0x81, mnemonic: "MOVB", argc: 2 },
        ],
{
    let mut opcodes: HashMap<u16, Opcode> = HashMap::new();
    opcodes.insert(0x84, Opcode { op: 0x84, mnemonic: "MOVW", argc: 2 });
    opcodes.insert(0x82, Opcode { op: 0x82, mnemonic: "MOVH", argc: 2 });
    opcodes.insert(0x80, Opcode { op: 0x81, mnemonic: "MOVB", argc: 2 });
    assert(opcodes@ =~= map![
        0x84u16 => Opcode { op: 0x84, mnemonic: "MOVW", argc: 2 },
        0x82u16 => Opcode { op: 0x82, mnemonic: "MOVH", argc: 2 },
        0x80u16 => Opcode { op: 0x81, mnemonic: "MOVB", argc: 2 },
    ]);
    opcodes
}

} // verus!
