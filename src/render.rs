use vstd::prelude::*;
use vstd::string::*;

use crate::decode::{AddrMode, Instruction, Operand};

verus! {

/// The lower-case hexadecimal digit of `d`, for `d < 16`.
pub open spec fn hex_char(d: int) -> char {
    if d == 0 {
        '0'
    } else
    if d == 1 {
        '1'
    } else
    if d == 2 {
        '2'
    } else
    if d == 3 {
        '3'
    } else
    if d == 4 {
        '4'
    } else
    if d == 5 {
        '5'
    } else
    if d == 6 {
        '6'
    } else
    if d == 7 {
        '7'
    } else
    if d == 8 {
        '8'
    } else
    if d == 9 {
        '9'
    } else
    if d == 10 {
        'a'
    } else
    if d == 11 {
        'b'
    } else
    if d == 12 {
        'c'
    } else
    if d == 13 {
        'd'
    } else
    if d == 14 {
        'e'
    } else
    {
        'f'
    }
}

/// `n` in lower-case hexadecimal, without leading zeros.
pub open spec fn hex_digits(n: nat) -> Seq<char>
    decreases n,
{
    if n < 16 {
        seq![hex_char(n as int)]
    } else {
        hex_digits(n / 16) + seq![hex_char((n % 16) as int)]
    }
}

/// `n` in decimal, without leading zeros.
pub open spec fn dec_digits(n: nat) -> Seq<char>
    decreases n,
{
    if n < 10 {
        seq![hex_char(n as int)]
    } else {
        dec_digits(n / 10) + seq![hex_char((n % 10) as int)]
    }
}

/// `i` in decimal, with a minus sign when negative.
pub open spec fn signed_digits(i: int) -> Seq<char> {
    if i < 0 {
        seq!['-'] + dec_digits((-i) as nat)
    } else {
        dec_digits(i as nat)
    }
}

/// `n` copies of `c`; none when `n` is not positive.
pub open spec fn repeat(c: char, n: int) -> Seq<char> {
    Seq::new(if n > 0 {
        n as nat
    } else {
        0
    }, |_i: int| c)
}

/// `s` with zeros put before it up to width `w`.
pub open spec fn zero_padded(s: Seq<char>, w: int) -> Seq<char> {
    repeat('0', w - s.len()) + s
}

/// `s` with spaces put before it up to width `w`.
pub open spec fn space_padded(s: Seq<char>, w: int) -> Seq<char> {
    repeat(' ', w - s.len()) + s
}

/// The text of the digit `d`.
fn digit(d: u64) -> (r: &'static str)
    requires
        d < 16,
    ensures
        r@ == seq![hex_char(d as int)],
{
    match d {
        0 => {
            proof {
                reveal_strlit("0");
            }
            "0"
        },
        1 => {
            proof {
                reveal_strlit("1");
            }
            "1"
        },
        2 => {
            proof {
                reveal_strlit("2");
            }
            "2"
        },
        3 => {
            proof {
                reveal_strlit("3");
            }
            "3"
        },
        4 => {
            proof {
                reveal_strlit("4");
            }
            "4"
        },
        5 => {
            proof {
                reveal_strlit("5");
            }
            "5"
        },
        6 => {
            proof {
                reveal_strlit("6");
            }
            "6"
        },
        7 => {
            proof {
                reveal_strlit("7");
            }
            "7"
        },
        8 => {
            proof {
                reveal_strlit("8");
            }
            "8"
        },
        9 => {
            proof {
                reveal_strlit("9");
            }
            "9"
        },
        10 => {
            proof {
                reveal_strlit("a");
            }
            "a"
        },
        11 => {
            proof {
                reveal_strlit("b");
            }
            "b"
        },
        12 => {
            proof {
                reveal_strlit("c");
            }
            "c"
        },
        13 => {
            proof {
                reveal_strlit("d");
            }
            "d"
        },
        14 => {
            proof {
                reveal_strlit("e");
            }
            "e"
        },
        _ => {
            proof {
                reveal_strlit("f");
            }
            "f"
        },
    }
}

/// `n` in lower-case hexadecimal.
pub fn hex_string(n: u64) -> (r: String)
    ensures
        r@ == hex_digits(n as nat),
    decreases n,
{
    if n < 16 {
        digit(n).to_owned()
    } else {
        let mut s = hex_string(n / 16);
        s.append(digit(n % 16));
        s
    }
}

/// `n` in decimal.
pub fn dec_string(n: u64) -> (r: String)
    ensures
        r@ == dec_digits(n as nat),
    decreases n,
{
    if n < 10 {
        digit(n).to_owned()
    } else {
        let mut s = dec_string(n / 10);
        s.append(digit(n % 10));
        s
    }
}

/// `i` in decimal, with a minus sign when negative.
pub fn signed_string(i: i32) -> (r: String)
    ensures
        r@ == signed_digits(i as int),
{
    if i < 0 {
        let mut s = "-".to_owned();
        proof {
            reveal_strlit("-");
        }
        let d = dec_string((-(i as i64)) as u64);
        s.append(d.as_str());
        s
    } else {
        dec_string(i as u64)
    }
}

/// Appends `n` copies of the one-character text `c` to `s`.
fn append_repeat(s: &mut String, c: &str, n: usize, Ghost(ch): Ghost<char>)
    requires
        c@ == seq![ch],
    ensures
        final(s)@ == old(s)@ + repeat(ch, n as int),
{
    let mut k: usize = 0;
    while k < n
        invariant
            c@ == seq![ch],
            k <= n,
            s@ == old(s)@ + repeat(ch, k as int),
        decreases n - k,
    {
        s.append(c);
        k = k + 1;
        assert(s@ =~= old(s)@ + repeat(ch, k as int));
    }
}

/// `t` with `fill` put before it up to width `w`.
fn padded(t: String, w: usize, fill: &str, Ghost(ch): Ghost<char>) -> (r: String)
    requires
        fill@ == seq![ch],
    ensures
        r@ == repeat(ch, w - t@.len()) + t@,
{
    let mut s = String::new();
    let n = t.unicode_len();
    if n < w {
        append_repeat(&mut s, fill, w - n, Ghost(ch));
    }
    s.append(t.as_str());
    assert(s@ =~= repeat(ch, w - t@.len()) + t@);
    s
}

/// `n` in lower-case hexadecimal with zeros put before it up to width `w`.
pub fn hex_padded(n: u64, w: usize) -> (r: String)
    ensures
        r@ == zero_padded(hex_digits(n as nat), w as int),
{
    proof {
        reveal_strlit("0");
        assert("0"@ =~= seq!['0']);
    }
    padded(hex_string(n), w, "0", Ghost('0'))
}

/// `n` in decimal with zeros put before it up to width `w`.
pub fn dec_zero_padded(n: u64, w: usize) -> (r: String)
    ensures
        r@ == zero_padded(dec_digits(n as nat), w as int),
{
    proof {
        reveal_strlit("0");
        assert("0"@ =~= seq!['0']);
    }
    padded(dec_string(n), w, "0", Ghost('0'))
}

/// `s` with spaces put before it up to width `w`.
pub fn right_aligned(s: String, w: usize) -> (r: String)
    ensures
        r@ == space_padded(s@, w as int),
{
    proof {
        reveal_strlit(" ");
        assert(" "@ =~= seq![' ']);
    }
    padded(s, w, " ", Ghost(' '))
}

/// The name of register `r` as the listing shows it.
pub open spec fn register_name(r: Option<usize>) -> Seq<char> {
    match r {
        Some(0) => "%r0"@,
        Some(1) => "%r1"@,
        Some(2) => "%r2"@,
        Some(3) => "%r3"@,
        Some(4) => "%r4"@,
        Some(5) => "%r5"@,
        Some(6) => "%r6"@,
        Some(7) => "%r7"@,
        Some(8) => "%r8"@,
        Some(9) => "%fp"@,
        Some(10) => "%ap"@,
        Some(11) => "%psw"@,
        Some(12) => "%sp"@,
        Some(13) => "%pcbp"@,
        Some(14) => "%isp"@,
        Some(15) => "%pc"@,
        _ => "%??"@,
    }
}

/// The name of register `r` as the listing shows it.
pub fn register_text(r: Option<usize>) -> (t: &'static str)
    ensures
        t@ == register_name(r),
{
    match r {
            Some(0) => "%r0",
            Some(1) => "%r1",
            Some(2) => "%r2",
            Some(3) => "%r3",
            Some(4) => "%r4",
            Some(5) => "%r5",
            Some(6) => "%r6",
            Some(7) => "%r7",
            Some(8) => "%r8",
            Some(9) => "%fp",
            Some(10) => "%ap",
            Some(11) => "%psw",
            Some(12) => "%sp",
            Some(13) => "%pcbp",
            Some(14) => "%isp",
            Some(15) => "%pc",
        _ => "%??",
    }
}

/// The text of operand `o` in a listing.
pub open spec fn operand_text(o: Operand) -> Seq<char> {
    let reg = register_name(o.register);
    let e = o.embedded;
    let byte_disp = signed_digits(((e as u8) as i8) as int);
    let half = hex_digits((e as u16) as nat);
    match o.mode {
        AddrMode::Absolute => "$0x"@ + hex_digits(e as nat),
        AddrMode::AbsoluteDeferred => "*$0x"@ + hex_digits(e as nat),
        AddrMode::ByteDisplacement => byte_disp + "("@ + reg + ")"@,
        AddrMode::ByteDisplacementDeferred => "*"@ + byte_disp + "("@ + reg + ")"@,
        AddrMode::HalfwordDisplacement => "0x"@ + half + "("@ + reg + ")"@,
        AddrMode::HalfwordDisplacementDeferred => "*0x"@ + half + "("@ + reg + ")"@,
        AddrMode::WordDisplacement => "0x"@ + hex_digits(e as nat) + "("@ + reg + ")"@,
        AddrMode::WordDisplacementDeferred => "*0x"@ + hex_digits(e as nat) + "("@ + reg + ")"@,
        AddrMode::APShortOffset => dec_digits(e as nat) + "(%ap)"@,
        AddrMode::FPShortOffset => dec_digits(e as nat) + "(%fp)"@,
        AddrMode::ByteImmediate => "&"@ + dec_digits(e as nat),
        AddrMode::HalfwordImmediate => "&0x"@ + hex_digits(e as nat),
        AddrMode::WordImmediate => "&0x"@ + hex_digits(e as nat),
        AddrMode::PositiveLiteral => "&"@ + dec_digits(e as nat),
        AddrMode::NegativeLiteral => "&"@ + signed_digits(((e as u8) as i8) as int),
        AddrMode::Register => reg,
        AddrMode::RegisterDeferred => "("@ + reg + ")"@,
        AddrMode::Unset => dec_digits(e as nat),
    }
}

/// `a`, then `b`.
fn concat2(a: &str, b: &str) -> (r: String)
    ensures
        r@ == a@ + b@,
{
    let mut s = a.to_owned();
    s.append(b);
    s
}

/// `a`, then `b`, then `c`.
fn concat3(a: &str, b: &str, c: &str) -> (r: String)
    ensures
        r@ == a@ + b@ + c@,
{
    let mut s = a.to_owned();
    s.append(b);
    s.append(c);
    s
}

impl Operand {
    /// The text of the operand in a listing.
    pub fn render(&self) -> (r: String)
        ensures
            r@ == operand_text(*self),
    {
        let reg = register_text(self.register);
        let e = self.embedded;
        match self.mode {
            AddrMode::Absolute => concat2("$0x", hex_string(e as u64).as_str()),
            AddrMode::AbsoluteDeferred => concat2("*$0x", hex_string(e as u64).as_str()),
            AddrMode::ByteDisplacement => {
                let mut s = signed_string(#[verifier::truncate] ((#[verifier::truncate] (e as u8)) as i8) as i32);
                s.append(concat3("(", reg, ")").as_str());
                s
            },
            AddrMode::ByteDisplacementDeferred => {
                let mut s = "*".to_owned();
                s.append(signed_string(#[verifier::truncate] ((#[verifier::truncate] (e as u8)) as i8) as i32).as_str());
                s.append(concat3("(", reg, ")").as_str());
                s
            },
            AddrMode::HalfwordDisplacement => {
                let mut s = concat3("0x", hex_string((e as u16) as u64).as_str(), "(");
                s.append(reg);
                s.append(")");
                s
            },
            AddrMode::HalfwordDisplacementDeferred => {
                let mut s = concat3("*0x", hex_string((e as u16) as u64).as_str(), "(");
                s.append(reg);
                s.append(")");
                s
            },
            AddrMode::WordDisplacement => {
                let mut s = concat3("0x", hex_string(e as u64).as_str(), "(");
                s.append(reg);
                s.append(")");
                s
            },
            AddrMode::WordDisplacementDeferred => {
                let mut s = concat3("*0x", hex_string(e as u64).as_str(), "(");
                s.append(reg);
                s.append(")");
                s
            },
            AddrMode::APShortOffset => concat2(dec_string(e as u64).as_str(), "(%ap)"),
            AddrMode::FPShortOffset => concat2(dec_string(e as u64).as_str(), "(%fp)"),
            AddrMode::ByteImmediate => concat2("&", dec_string(e as u64).as_str()),
            AddrMode::HalfwordImmediate => concat2("&0x", hex_string(e as u64).as_str()),
            AddrMode::WordImmediate => concat2("&0x", hex_string(e as u64).as_str()),
            AddrMode::PositiveLiteral => concat2("&", dec_string(e as u64).as_str()),
            AddrMode::NegativeLiteral => concat2("&", signed_string(#[verifier::truncate] ((#[verifier::truncate] (e as u8)) as i8) as i32).as_str()),
            AddrMode::Register => reg.to_owned(),
            AddrMode::RegisterDeferred => concat3("(", reg, ")"),
            AddrMode::Unset => dec_string(e as u64),
        }
    }
}

/// A space and two hexadecimal digits for each byte of `bs`.
pub open spec fn bytes_text(bs: Seq<u8>) -> Seq<char>
    decreases bs.len(),
{
    if bs.len() == 0 {
        Seq::empty()
    } else {
        bytes_text(bs.drop_last()) + " "@ + zero_padded(hex_digits(bs.last() as nat), 2)
    }
}

/// The bytes of the operands `ops`, in order.
pub open spec fn all_bytes(ops: Seq<Operand>) -> Seq<u8>
    decreases ops.len(),
{
    if ops.len() == 0 {
        Seq::empty()
    } else {
        all_bytes(ops.drop_last()) + ops.last().bytes@
    }
}

/// The texts of the operands `ops`, separated by commas.
pub open spec fn operand_list(ops: Seq<Operand>) -> Seq<char>
    decreases ops.len(),
{
    if ops.len() == 0 {
        Seq::empty()
    } else if ops.len() == 1 {
        operand_text(ops[0])
    } else {
        operand_list(ops.drop_last()) + ","@ + operand_text(ops.last())
    }
}

/// The operands of `ir` that the listing shows: the first `operand_count`.
pub open spec fn shown_operands(ir: Instruction) -> Seq<Operand> {
    let n = if ir.operand_count as int <= ir.operands@.len() {
        ir.operand_count as int
    } else {
        ir.operands@.len() as int
    };
    ir.operands@.subrange(0, n)
}

/// The listing line of `ir`: its opcode and operand bytes in hexadecimal,
/// padded to a fixed column, a bar, its name padded to ten characters, and
/// its operands separated by commas.
pub open spec fn instruction_text(ir: Instruction) -> Seq<char> {
    let ops = shown_operands(ir);
    let bs = all_bytes(ops);
    zero_padded(hex_digits(ir.opcode as nat), 2) + bytes_text(bs) + repeat(' ', 30 - (2 + 3 * bs.len())) + " | "@
        + ir.name@ + repeat(' ', 10 - ir.name.len()) + operand_list(ops)
}

impl Instruction {
    /// The listing line of the instruction.
    pub fn render(&self) -> (r: String)
        ensures
            r@ == instruction_text(*self),
    {
        let ghost ops = shown_operands(*self);
        let count: usize = if (self.operand_count as usize) < self.operands.len() {
            self.operand_count as usize
        } else {
            self.operands.len()
        };
        let mut s = hex_padded(self.opcode as u64, 2);
        let ghost head = s@;
        let ghost mut acc: Seq<u8> = Seq::empty();
        let mut width: usize = 2;
        let mut i: usize = 0;
        while i < count
            invariant
                ops == shown_operands(*self),
                count == ops.len(),
                count <= self.operands@.len(),
                i <= count,
                acc == all_bytes(ops.subrange(0, i as int)),
                s@ == head + bytes_text(acc),
                width == if 2 + 3 * acc.len() <= 32 { 2 + 3 * acc.len() } else { 32 },
            decreases count - i,
        {
            let op = &self.operands[i];
            let mut j: usize = 0;
            while j < op.bytes.len()
                invariant
                    ops == shown_operands(*self),
                    count == ops.len(),
                    i < count,
                    *op == ops[i as int],
                    j <= op.bytes@.len(),
                    acc == all_bytes(ops.subrange(0, i as int)) + op.bytes@.subrange(0, j as int),
                    s@ == head + bytes_text(acc),
                    width == if 2 + 3 * acc.len() <= 32 { 2 + 3 * acc.len() } else { 32 },
                decreases op.bytes@.len() - j,
            {
                let b = op.bytes[j];
                s.append(" ");
                s.append(hex_padded(b as u64, 2).as_str());
                proof {
                    let next = acc.push(b);
                    assert(next.drop_last() =~= acc);
                    assert(op.bytes@.subrange(0, j + 1) =~= op.bytes@.subrange(0, j as int).push(b));
                    acc = next;
                }
                if width < 30 {
                    width = width + 3;
                }
                j = j + 1;
            }
            proof {
                assert(ops.subrange(0, i + 1).drop_last() =~= ops.subrange(0, i as int));
                assert(op.bytes@.subrange(0, j as int) =~= op.bytes@);
            }
            i = i + 1;
        }
        assert(ops.subrange(0, count as int) =~= ops);
        proof {
            reveal_strlit(" ");
            assert(" "@ =~= seq![' ']);
        }
        if width < 30 {
            append_repeat(&mut s, " ", 30 - width, Ghost(' '));
        }
        assert(repeat(' ', 30 - width) =~= repeat(' ', 30 - (2 + 3 * acc.len())));
        s.append(" | ");
        s.append(self.name);
        let name_len = self.name.len();
        if name_len < 10 {
            append_repeat(&mut s, " ", 10 - name_len, Ghost(' '));
        }
        assert(repeat(' ', 10 - name_len) =~= repeat(' ', 10 - self.name.len()));
        let ghost mid = s@;
        let mut k: usize = 0;
        while k < count
            invariant
                ops == shown_operands(*self),
                count == ops.len(),
                count <= self.operands@.len(),
                k <= count,
                s@ == mid + operand_list(ops.subrange(0, k as int)),
            decreases count - k,
        {
            if k > 0 {
                s.append(",");
            }
            s.append(self.operands[k].render().as_str());
            proof {
                let pre = ops.subrange(0, k + 1);
                assert(pre.drop_last() =~= ops.subrange(0, k as int));
                if k == 0 {
                    assert(ops.subrange(0, 0) =~= Seq::<Operand>::empty());
                }
            }
            k = k + 1;
        }
        assert(ops.subrange(0, count as int) =~= ops);
        s
    }
}

} // verus!
