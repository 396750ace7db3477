use vstd::prelude::*;
use crate::cpu::Flags;

verus! {

/// The eight operations of the arithmetic group, in sub-opcode order.
#[derive(Debug, Clone, Copy, PartialEq, Eq, Structural)]
pub enum AluOp {
    Add,
    Or,
    Adc,
    Sbb,
    And,
    Sub,
    Xor,
    Cmp,
}

/// The operation that a 3-bit sub-opcode selects.
pub open spec fn alu_op_of(i: u8) -> AluOp {
    if i % 8 == 0 {
        AluOp::Add
    } else if i % 8 == 1 {
        AluOp::Or
    } else if i % 8 == 2 {
        AluOp::Adc
    } else if i % 8 == 3 {
        AluOp::Sbb
    } else if i % 8 == 4 {
        AluOp::And
    } else if i % 8 == 5 {
        AluOp::Sub
    } else if i % 8 == 6 {
        AluOp::Xor
    } else {
        AluOp::Cmp
    }
}

/// The mnemonic of an operation.
pub open spec fn alu_text(op: AluOp) -> Seq<char> {
    match op {
        AluOp::Add => "add"@,
        AluOp::Or => "or"@,
        AluOp::Adc => "adc"@,
        AluOp::Sbb => "sbb"@,
        AluOp::And => "and"@,
        AluOp::Sub => "sub"@,
        AluOp::Xor => "xor"@,
        AluOp::Cmp => "cmp"@,
    }
}

/// The operation that the low three bits of `i` select.
pub fn alu_op_from_index(i: u8) -> (op: AluOp)
    ensures
        op == alu_op_of(i),
{
    match i % 8 {
        0 => AluOp::Add,
        1 => AluOp::Or,
        2 => AluOp::Adc,
        3 => AluOp::Sbb,
        4 => AluOp::And,
        5 => AluOp::Sub,
        6 => AluOp::Xor,
        _ => AluOp::Cmp,
    }
}

/// The mnemonic of an operation.
pub fn alu_name(op: AluOp) -> (s: &'static str)
    ensures
        s@ == alu_text(op),
{
    match op {
        AluOp::Add => "add",
        AluOp::Or => "or",
        AluOp::Adc => "adc",
        AluOp::Sbb => "sbb",
        AluOp::And => "and",
        AluOp::Sub => "sub",
        AluOp::Xor => "xor",
        AluOp::Cmp => "cmp",
    }
}

/// The number of one bits of `n`.
pub open spec fn bit_count(n: nat) -> nat
    decreases n,
{
    if n == 0 {
        0
    } else {
        n % 2 + bit_count(n / 2)
    }
}

/// Whether the low byte of `v` has an even number of one bits.
pub open spec fn even_parity(v: u16) -> bool {
    bit_count((v % 256) as nat) % 2 == 0
}

/// Whether the sign bit of a word is set.
pub open spec fn negative(v: u16) -> bool {
    v >= 0x8000
}

/// The flags with ZF, SF and PF describing the result `r`.
pub open spec fn result_flags(f: Flags, r: u16) -> Flags {
    Flags { zf: r == 0, sf: negative(r), pf: even_parity(r), ..f }
}

/// The result of an operation on `a` and `b` and the flags after it.
///
/// Results wrap modulo 2^16. ZF, SF and PF describe the result; CF and OF are
/// the unsigned carry or borrow and the signed overflow for the additions and
/// subtractions, and clear for the logical operations; AF is the carry or
/// borrow out of the low nibble for the additions and subtractions and is left
/// as it was by the logical operations.
pub open spec fn alu_spec(op: AluOp, a: u16, b: u16, f: Flags) -> (u16, Flags) {
    let carry: int = if f.cf { 1 } else { 0 };
    match op {
        AluOp::Add | AluOp::Adc => {
            let c = if op == AluOp::Adc { carry } else { 0 };
            let s = a + b + c;
            let r = (s % 65536) as u16;
            (r, Flags {
                cf: s > 65535,
                of: negative(a) == negative(b) && negative(r) != negative(a),
                af: a % 16 + b % 16 + c >= 16,
                ..result_flags(f, r)
            })
        },
        AluOp::Sub | AluOp::Sbb | AluOp::Cmp => {
            let c = if op == AluOp::Sbb { carry } else { 0 };
            let r = ((a - b - c + 131072) % 65536) as u16;
            (r, Flags {
                cf: a < b + c,
                of: negative(a) != negative(b) && negative(r) != negative(a),
                af: a % 16 < b % 16 + c,
                ..result_flags(f, r)
            })
        },
        AluOp::And => {
            let r = a & b;
            (r, Flags { cf: false, of: false, ..result_flags(f, r) })
        },
        AluOp::Or => {
            let r = a | b;
            (r, Flags { cf: false, of: false, ..result_flags(f, r) })
        },
        AluOp::Xor => {
            let r = a ^ b;
            (r, Flags { cf: false, of: false, ..result_flags(f, r) })
        },
    }
}

/// Whether the low byte of `v` has an even number of one bits.
pub fn parity_even(v: u16) -> (r: bool)
    ensures
        r == even_parity(v),
{
    let mut x: u16 = v % 256;
    let mut count: u16 = 0;
    while x > 0
        invariant
            x < 256,
            count + x <= 255,
            count + bit_count(x as nat) == bit_count((v % 256) as nat),
        decreases x,
    {
        proof {
            assert(bit_count(x as nat) == x % 2 + bit_count((x / 2) as nat));
        }
        count = count + x % 2;
        x = x / 2;
    }
    count % 2 == 0
}

/// ZF, SF and PF set from the result `r`.
pub fn with_result_flags(f: Flags, r: u16) -> (g: Flags)
    ensures
        g == result_flags(f, r),
{
    Flags { zf: r == 0, sf: r >= 0x8000, pf: parity_even(r), ..f }
}

/// Computes an operation and the flags after it.
pub fn alu(op: AluOp, a: u16, b: u16, f: Flags) -> (r: (u16, Flags))
    ensures
        r == alu_spec(op, a, b, f),
{
    let carry: u32 = if f.cf { 1 } else { 0 };
    match op {
        AluOp::Add | AluOp::Adc => {
            let c: u32 = if op == AluOp::Adc { carry } else { 0 };
            let s: u32 = a as u32 + b as u32 + c;
            let r = (s % 65536) as u16;
            let g = with_result_flags(f, r);
            (r, Flags {
                cf: s > 65535,
                of: (a >= 0x8000) == (b >= 0x8000) && (r >= 0x8000) != (a >= 0x8000),
                af: (a % 16) as u32 + (b % 16) as u32 + c >= 16,
                ..g
            })
        },
        AluOp::Sub | AluOp::Sbb | AluOp::Cmp => {
            let c: u32 = if op == AluOp::Sbb { carry } else { 0 };
            let r = ((a as u32 + 131072 - b as u32 - c) % 65536) as u16;
            let g = with_result_flags(f, r);
            (r, Flags {
                cf: (a as u32) < b as u32 + c,
                of: (a >= 0x8000) != (b >= 0x8000) && (r >= 0x8000) != (a >= 0x8000),
                af: ((a % 16) as u32) < (b % 16) as u32 + c,
                ..g
            })
        },
        AluOp::And => {
            let r = a & b;
            (r, Flags { cf: false, of: false, ..with_result_flags(f, r) })
        },
        AluOp::Or => {
            let r = a | b;
            (r, Flags { cf: false, of: false, ..with_result_flags(f, r) })
        },
        AluOp::Xor => {
            let r = a ^ b;
            (r, Flags { cf: false, of: false, ..with_result_flags(f, r) })
        },
    }
}

} // verus!
