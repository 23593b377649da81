use we32dis::cursor::ByteCursor;
use we32dis::decode::{AddrMode, Data, Decoder, OpType};
use we32dis::mnemonics::byte_mnemonic;
use we32dis::render::{hex_padded, hex_string, right_aligned, signed_string};
use we32dis::errors::DecodeError;

fn decode(bytes: &[u8]) -> (Result<(), DecodeError>, Decoder, usize) {
    let mut decoder = Decoder::new();
    let mut cursor = ByteCursor::new(bytes);
    let r = decoder.decode_instruction(&mut cursor);
    (r, decoder, cursor.position())
}

#[test]
fn simple_disassembly() {
    let (r, d, pos) = decode(&[0x00]);
    assert_eq!(r, Ok(()));
    assert_eq!(d.ir.name, "halt");
    assert_eq!(d.ir.operand_count, 0);
    assert_eq!(pos, 1);
}

#[test]
fn byte_immediate_operand() {
    let (r, d, pos) = decode(&[0x84, 0x6F, 0x2A, 0x40]);
    assert_eq!(r, Ok(()));
    assert_eq!(d.ir.name, "MOVW");
    assert_eq!(d.ir.operand_count, 2);
    assert_eq!(d.ir.operands[0].mode, AddrMode::ByteImmediate);
    assert_eq!(d.ir.operands[0].embedded, 42);
    assert_eq!(d.ir.operands[0].render(), "&42");
    assert_eq!(d.ir.operands[1].mode, AddrMode::Register);
    assert_eq!(d.ir.operands[1].register, Some(0));
    assert_eq!(pos, 4);
}

#[test]
fn halfword_opcodes() {
    let (r, d, pos) = decode(&[0x30, 0x09]);
    assert_eq!(r, Ok(()));
    assert_eq!(d.ir.name, "MVERNO");
    assert_eq!(d.ir.opcode, 0x3009);
    assert_eq!(d.ir.operand_count, 0);
    assert_eq!(pos, 2);
    let (r, d, _) = decode(&[0x30, 0xAC]);
    assert_eq!(r, Ok(()));
    assert_eq!(d.ir.name, "CALLPS");
    let (r, _, _) = decode(&[0x30, 0xFF]);
    assert_eq!(r, Err(DecodeError::ParseError));
}

#[test]
fn absolute_addressing() {
    let (r, d, pos) = decode(&[0x84, 0x7F, 0x78, 0x56, 0x34, 0x12, 0x40]);
    assert_eq!(r, Ok(()));
    assert_eq!(d.ir.operands[0].mode, AddrMode::Absolute);
    assert_eq!(d.ir.operands[0].embedded, 0x12345678);
    assert_eq!(d.ir.operands[0].render(), "$0x12345678");
    assert_eq!(pos, 7);
}

#[test]
fn expanded_type_carry() {
    let (r, d, pos) = decode(&[0x84, 0xE4, 0x40, 0x41]);
    assert_eq!(r, Ok(()));
    assert_eq!(d.ir.operands[0].mode, AddrMode::Register);
    assert_eq!(d.ir.operands[0].expanded_type, Some(Data::Word));
    assert_eq!(d.ir.operands[0].bytes, vec![0xE4, 0x40]);
    assert_eq!(d.ir.operands[1].mode, AddrMode::Register);
    assert_eq!(d.ir.operands[1].register, Some(1));
    assert_eq!(d.ir.operands[1].expanded_type, Some(Data::Word));
    assert_eq!(pos, 4);
}

#[test]
fn reserved_descriptors_are_rejected() {
    for b in [0x5Bu8, 0x8B, 0x9B, 0xAB, 0xBB, 0xCB, 0xDB, 0xE1, 0xE5, 0xE8] {
        let (r, _, _) = decode(&[0x84, b, 0, 0, 0, 0, 0x40]);
        assert_eq!(r, Err(DecodeError::ParseError), "descriptor {:#x}", b);
    }
}

#[test]
fn truncated_streams() {
    let (r, d, _) = decode(&[]);
    assert_eq!(r, Err(DecodeError::IoExhausted));
    assert_eq!(d.ir.name, "???");
    let (r, _, _) = decode(&[0x84, 0x4F, 0x01]);
    assert_eq!(r, Err(DecodeError::IoExhausted));
    let (r, _, _) = decode(&[0x30]);
    assert_eq!(r, Err(DecodeError::IoExhausted));
    let (r, _, _) = decode(&[0x01]);
    assert_eq!(r, Err(DecodeError::ParseError));
}

#[test]
fn literal_and_negative_operands() {
    let (r, d, pos) = decode(&[0x7B, 0x10]);
    assert_eq!(r, Ok(()));
    assert_eq!(d.ir.name, "BRB");
    assert_eq!(d.ir.operands[0].mode, AddrMode::Unset);
    assert_eq!(d.ir.operands[0].embedded, 16);
    assert_eq!(pos, 2);
    let (r, d, _) = decode(&[0x84, 0xFF, 0x5A]);
    assert_eq!(r, Ok(()));
    assert_eq!(d.ir.operands[0].mode, AddrMode::NegativeLiteral);
    assert_eq!(d.ir.operands[0].render(), "&-1");
    assert_eq!(d.ir.operands[1].render(), "(%ap)");
}

#[test]
fn displacement_operands() {
    let (r, d, pos) = decode(&[0x84, 0xC9, 0xFC, 0xA3, 0x10, 0x20]);
    assert_eq!(r, Ok(()));
    assert_eq!(d.ir.operands[0].mode, AddrMode::ByteDisplacement);
    assert_eq!(d.ir.operands[0].render(), "-4(%fp)");
    assert_eq!(d.ir.operands[1].mode, AddrMode::HalfwordDisplacement);
    assert_eq!(d.ir.operands[1].render(), "0x2010(%r3)");
    assert_eq!(pos, 6);
}

#[test]
fn listing_line() {
    let (_, d, _) = decode(&[0x84, 0x6F, 0x2A, 0x40]);
    let expected = format!("84 6f 2a 40{} | MOVW      &42,%r0", " ".repeat(19));
    assert_eq!(d.ir.render(), expected);
    let (_, d, _) = decode(&[0x30, 0x09]);
    assert_eq!(d.ir.render(), format!("3009{} | MVERNO    ", " ".repeat(28)));
}

#[test]
fn every_byte_opcode_advances_by_its_operands() {
    for op in 0u8..=255 {
        if let Some(mn) = byte_mnemonic(op) {
            let mut bytes = vec![op];
            for ot in mn.ops.iter() {
                match ot {
                    OpType::Lit => match mn.dtype {
                        Data::Byte => bytes.push(1),
                        Data::Half => bytes.extend_from_slice(&[1, 2]),
                        _ => bytes.extend_from_slice(&[1, 2, 3, 4]),
                    },
                    OpType::Src | OpType::Dest => bytes.extend_from_slice(&[0x7F, 1, 2, 3, 4]),
                    OpType::Unused => break,
                }
            }
            let (r, d, pos) = decode(&bytes);
            assert_eq!(r, Ok(()), "opcode {:#x}", op);
            let consumed: usize = d.ir.operands.iter().map(|o| o.byte_size()).sum();
            assert_eq!(pos, 1 + consumed, "opcode {:#x}", op);
            assert_eq!(pos, bytes.len(), "opcode {:#x}", op);
        }
    }
}

#[test]
fn opcode_map() {
    let m = we32dis::we32k::get_opcodes();
    assert_eq!(m.len(), 3);
    assert_eq!(m[&0x84].mnemonic, "MOVW");
    assert_eq!(m[&0x80].op, 0x81);
    assert_eq!(m[&0x82].argc, 2);
}

#[test]
fn number_formatting() {
    assert_eq!(hex_string(0), "0");
    assert_eq!(hex_string(0xdeadbeef), "deadbeef");
    assert_eq!(hex_padded(0x1c, 4), "001c");
    assert_eq!(signed_string(-128), "-128");
    assert_eq!(right_aligned("5".to_string(), 3), "  5");
}

#[test]
fn override_selector_fifteen_is_absolute() {
    let (r, d, pos) = decode(&[0x84, 0xEF, 0x00, 0x10, 0x00, 0x00, 0x40]);
    assert_eq!(r, Ok(()));
    assert_eq!(d.ir.operands[0].mode, AddrMode::Absolute);
    assert_eq!(d.ir.operands[0].embedded, 0x1000);
    assert_eq!(pos, 7);
}
