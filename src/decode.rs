use vstd::prelude::*;
use crate::alu::{alu_name, alu_op_from_index};
use crate::byte_stream::ByteStream;
use crate::cpu::{
    reg16_from_index, reg16_name, reg8_from_index, reg8_name, seg_from_index, seg_name, Cpu, Reg16,
};
use crate::error::EmuError;
use crate::dos::decode_int;
use crate::instr::{
    body_spec, decode_spec, instr_text, is_first_dollar, modrm_instr_spec, repeatable, step_decode_spec, step_text,
    string_limit, Instr, Repeat, Step,
};
use crate::modrm::{decode_modrm, push_operand, ModRm};
use crate::text::{escape_line_breaks, push_hex, utf8_lossy};

verus! {

/// `r` is the executable form of the decoding result `s`.
pub open spec fn same_decode(r: Result<(Instr, usize), EmuError>, s: Result<(Instr, int), EmuError>) -> bool {
    match s {
        Ok((i, q)) => r is Ok && r->Ok_0.0 == i && r->Ok_0.1 as int == q,
        Err(e) => r == Err::<(Instr, usize), EmuError>(e),
    }
}

/// The instruction of a ModRM opcode, given its ModRM and the position after it.
pub fn decode_modrm_instr(op: u8, m: ModRm, bst: &ByteStream, q: usize) -> (r: Result<(Instr, usize), EmuError>)
    requires
        q <= bst@.len(),
    ensures
        same_decode(r, modrm_instr_spec(op, m, bst@, q as int)),
{
    let len = bst.len();
    if op < 0x40 && op % 8 == 3 {
        Ok((Instr::AluRegRm { op: alu_op_from_index(op / 8), dst: reg16_from_index(m.reg), src: m }, q))
    } else if op == 0x81 {
        if len - q < 2 {
            return Err(EmuError::BufferUnderrun);
        }
        match bst.read_word_at(q) {
            Ok(w) => Ok((Instr::AluRmImm { op: alu_op_from_index(m.reg), dst: m, imm: w, shown: w }, q + 2)),
            Err(e) => Err(e),
        }
    } else if op == 0x83 {
        if len - q < 1 {
            return Err(EmuError::BufferUnderrun);
        }
        match bst.read_byte_at(q) {
            Ok(d) => {
                let imm: u16 = if d < 0x80 {
                    d as u16
                } else {
                    d as u16 + 0xFF00
                };
                Ok((Instr::AluRmImm { op: alu_op_from_index(m.reg), dst: m, imm, shown: d as u16 }, q + 1))
            },
            Err(e) => Err(e),
        }
    } else if op == 0x8B {
        Ok((Instr::MovRegRm { dst: reg16_from_index(m.reg), src: m }, q))
    } else if op == 0x8C {
        match seg_from_index(m.reg) {
            Ok(s) => Ok((Instr::MovRmSeg { dst: m, seg: s }, q)),
            Err(e) => Err(e),
        }
    } else if op == 0x8D {
        if m.mode == 3 {
            Err(EmuError::UnsupportedOpcode(op))
        } else {
            Ok((Instr::Lea { dst: reg16_from_index(m.reg), src: m }, q))
        }
    } else if op == 0x8E {
        match seg_from_index(m.reg) {
            Ok(s) => Ok((Instr::MovSegRm { seg: s, src: m }, q)),
            Err(e) => Err(e),
        }
    } else {
        if m.reg == 0 {
            if len - q < 2 {
                return Err(EmuError::BufferUnderrun);
            }
            match bst.read_word_at(q) {
                Ok(w) => Ok((Instr::Test { dst: m, imm: w }, q + 2)),
                Err(e) => Err(e),
            }
        } else if m.reg == 2 {
            Ok((Instr::Not { dst: m }, q))
        } else if m.reg == 3 {
            Ok((Instr::Neg { dst: m }, q))
        } else {
            Err(EmuError::UnsupportedOpcode(op))
        }
    }
}

/// Decodes the instruction whose opcode `op` has been read, with its operand
/// bytes starting at `p`.
pub fn decode_body(op: u8, cpu: &Cpu, bst: &ByteStream, p: usize) -> (r: Result<(Instr, usize), EmuError>)
    ensures
        same_decode(r, body_spec(op, cpu@, bst@, p as int)),
{
    let len = bst.len();
    if op == 0x00 {
        Ok((Instr::Nop, p))
    } else if op == 0x06 || op == 0x0E || op == 0x16 || op == 0x1E {
        match seg_from_index(op / 8) {
            Ok(s) => Ok((Instr::PushSeg(s), p)),
            Err(e) => Err(e),
        }
    } else if op == 0x07 || op == 0x17 || op == 0x1F {
        match seg_from_index(op / 8) {
            Ok(s) => Ok((Instr::PopSeg(s), p)),
            Err(e) => Err(e),
        }
    } else if (op < 0x40 && op % 8 == 3) || op == 0x81 || op == 0x83 || op == 0x8B || op == 0x8C || op == 0x8D
        || op == 0x8E || op == 0xF7 {
        match decode_modrm(bst, p) {
            Ok((m, q)) => decode_modrm_instr(op, m, bst, q),
            Err(e) => Err(e),
        }
    } else if 0x50 <= op && op < 0x58 {
        Ok((Instr::PushReg(reg16_from_index(op - 0x50)), p))
    } else if 0x58 <= op && op < 0x60 {
        Ok((Instr::PopReg(reg16_from_index(op - 0x58)), p))
    } else if op == 0xAE {
        Ok((Instr::Scasb, p))
    } else if 0xB0 <= op && op < 0xB8 {
        if p >= len {
            return Err(EmuError::BufferUnderrun);
        }
        match bst.read_byte_at(p) {
            Ok(v) => Ok((Instr::MovReg8Imm { dst: reg8_from_index(op - 0xB0), imm: v }, p + 1)),
            Err(e) => Err(e),
        }
    } else if 0xB8 <= op && op < 0xC0 {
        if p > len || len - p < 2 {
            return Err(EmuError::BufferUnderrun);
        }
        match bst.read_word_at(p) {
            Ok(v) => Ok((Instr::MovReg16Imm { dst: reg16_from_index(op - 0xB8), imm: v }, p + 2)),
            Err(e) => Err(e),
        }
    } else if op == 0xC3 {
        Ok((Instr::Ret, p))
    } else if op == 0xCD {
        if p >= len {
            return Err(EmuError::BufferUnderrun);
        }
        match bst.read_byte_at(p) {
            Ok(v) => match decode_int(v, cpu, bst) {
                Ok(i) => Ok((i, p + 1)),
                Err(e) => Err(e),
            },
            Err(e) => Err(e),
        }
    } else if op == 0xE8 {
        if p > len || len - p < 2 {
            return Err(EmuError::BufferUnderrun);
        }
        match bst.read_word_at(p) {
            Ok(w) => {
                let target = ((p % 0x10000) as u32 + 2 + w as u32) % 0x10000;
                assert(target == (p + 2 + crate::text::signed16(w) + 0x20000) % 0x10000);
                Ok((Instr::Call { target: target as u16 }, p + 2))
            },
            Err(e) => Err(e),
        }
    } else {
        Err(EmuError::UnsupportedOpcode(op))
    }
}

/// Decodes the instruction at `at`, opcode included.
pub fn decode_plain(cpu: &Cpu, bst: &ByteStream, at: usize) -> (r: Result<(Instr, usize), EmuError>)
    ensures
        same_decode(r, decode_spec(cpu@, bst@, at as int)),
{
    reveal(decode_spec);
    if at >= bst.len() {
        return Err(EmuError::BufferUnderrun);
    }
    match bst.read_byte_at(at) {
        Ok(op) => decode_body(op, cpu, bst, at + 1),
        Err(e) => Err(e),
    }
}

/// Whether an instruction may stand under a repeat prefix.
pub fn is_repeatable(i: Instr) -> (r: bool)
    ensures
        r == repeatable(i),
{
    match i {
        Instr::Call { .. } | Instr::Ret | Instr::Int { .. } | Instr::PrintString { .. } => false,
        _ => true,
    }
}

/// Decodes what follows the opcode `op` read just before `p`, a repeat prefix
/// and its instruction included.
pub fn decode_step(op: u8, cpu: &Cpu, bst: &ByteStream, p: usize) -> (r: Result<(Step, usize), EmuError>)
    ensures
        match step_decode_spec(op, cpu@, bst@, p as int) {
            Ok((s, q)) => r is Ok && r->Ok_0.0 == s && r->Ok_0.1 as int == q,
            Err(e) => r == Err::<(Step, usize), EmuError>(e),
        },
{
    reveal(decode_spec);
    if op == 0xF2 || op == 0xF3 {
        match decode_plain(cpu, bst, p) {
            Ok((i, q)) => {
                if is_repeatable(i) {
                    let repeat = if op == 0xF2 {
                        Repeat::WhileNotEqual
                    } else {
                        Repeat::WhileEqual
                    };
                    Ok((Step { repeat, instr: i }, q))
                } else {
                    match bst.read_byte_at(p) {
                        Ok(inner) => Err(EmuError::UnsupportedOpcode(inner)),
                        Err(e) => Err(e),
                    }
                }
            },
            Err(e) => Err(e),
        }
    } else {
        match decode_body(op, cpu, bst, p) {
            Ok((i, q)) => Ok((Step { repeat: Repeat::Once, instr: i }, q)),
            Err(e) => Err(e),
        }
    }
}

/// Whether the string range of a "print string" instruction lies in the image.
pub open spec fn text_ready(i: Instr, b: Seq<u8>) -> bool {
    match i {
        Instr::PrintString { begin, end } => begin <= end <= b.len(),
        _ => true,
    }
}

/// The decoder only yields "print string" ranges inside the image.
pub proof fn lemma_decoded_text_ready(c: crate::cpu::CpuState, b: Seq<u8>, op: u8, p: int)
    ensures
        body_spec(op, c, b, p) is Ok ==> text_ready(body_spec(op, c, b, p)->Ok_0.0, b),
{
    if op == 0xCD && body_spec(op, c, b, p) is Ok {
        if b[p] == 0x21 && c.ah == 9 {
            let begin = c.reg16(Reg16::Dx) as int;
            let k = choose|k: int| is_first_dollar(b, begin, string_limit(b), k);
            assert(is_first_dollar(b, begin, string_limit(b), k));
        }
    }
}

/// The disassembly of an instruction.
pub fn instr_string(i: Instr, bst: &ByteStream) -> (s: String)
    requires
        text_ready(i, bst@),
    ensures
        s@ == instr_text(i, bst@),
{
    reveal(instr_text);
    let mut s = String::new();
    match i {
        Instr::Nop => s.append("nop"),
        Instr::PushReg(r) => {
            s.append("push ");
            s.append(reg16_name(r));
        },
        Instr::PopReg(r) => {
            s.append("pop ");
            s.append(reg16_name(r));
        },
        Instr::PushSeg(g) => {
            s.append("push ");
            s.append(seg_name(g));
        },
        Instr::PopSeg(g) => {
            s.append("pop ");
            s.append(seg_name(g));
        },
        Instr::AluRegRm { op, dst, src } => {
            s.append(alu_name(op));
            s.append(" ");
            s.append(reg16_name(dst));
            s.append(",");
            push_operand(&mut s, src);
        },
        Instr::AluRmImm { op, dst, shown, .. } => {
            s.append(alu_name(op));
            s.append(" ");
            push_operand(&mut s, dst);
            s.append(",0x");
            push_hex(&mut s, shown as u32);
        },
        Instr::MovRegRm { dst, src } => {
            s.append("mov ");
            s.append(reg16_name(dst));
            s.append(",");
            push_operand(&mut s, src);
        },
        Instr::MovRmSeg { dst, seg } => {
            s.append("mov ");
            push_operand(&mut s, dst);
            s.append(",");
            s.append(seg_name(seg));
        },
        Instr::Lea { dst, src } => {
            s.append("lea ");
            s.append(reg16_name(dst));
            s.append(",");
            push_operand(&mut s, src);
        },
        Instr::MovSegRm { seg, src } => {
            s.append("mov ");
            s.append(seg_name(seg));
            s.append(",");
            push_operand(&mut s, src);
        },
        Instr::Scasb => s.append("scasb"),
        Instr::MovReg8Imm { dst, imm } => {
            s.append("mov ");
            s.append(reg8_name(dst));
            s.append(",0x");
            push_hex(&mut s, imm as u32);
        },
        Instr::MovReg16Imm { dst, imm } => {
            s.append("mov ");
            s.append(reg16_name(dst));
            s.append(",0x");
            push_hex(&mut s, imm as u32);
        },
        Instr::Ret => s.append("ret"),
        Instr::Int { vector } => {
            s.append("int ");
            push_hex(&mut s, vector as u32);
            s.append("h");
        },
        Instr::PrintString { begin, end } => {
            s.append("int 21h\n; printf(");
            match bst.read_bytes_at((end - begin) as usize, begin as usize) {
                Ok(raw) => {
                    let shown = utf8_lossy(&escape_line_breaks(&raw));
                    s.append(shown.as_str());
                },
                Err(_) => {},
            }
            s.append(");");
        },
        Instr::Call { target } => {
            s.append("call 0x");
            push_hex(&mut s, target as u32);
        },
        Instr::Test { dst, imm } => {
            s.append("test ");
            push_operand(&mut s, dst);
            s.append(",0x");
            push_hex(&mut s, imm as u32);
        },
        Instr::Not { dst } => {
            s.append("not ");
            push_operand(&mut s, dst);
        },
        Instr::Neg { dst } => {
            s.append("neg ");
            push_operand(&mut s, dst);
        },
    }
    assert(s@ =~= instr_text(i, bst@));
    s
}

/// The disassembly of an instruction with its prefix.
pub fn step_string(st: Step, bst: &ByteStream) -> (s: String)
    requires
        text_ready(st.instr, bst@),
    ensures
        s@ == step_text(st, bst@),
{
    let body = instr_string(st.instr, bst);
    let mut s = String::new();
    match st.repeat {
        Repeat::Once => {},
        Repeat::WhileNotEqual => s.append("repne "),
        Repeat::WhileEqual => s.append("repe "),
    }
    s.append(body.as_str());
    assert(s@ =~= step_text(st, bst@));
    s
}

} // verus!
