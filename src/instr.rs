use vstd::prelude::*;
use crate::alu::{alu_op_of, alu_spec, alu_text, result_flags, AluOp};
use crate::byte_stream::{fits, put_word, word_at};
use crate::cpu::{
    reg16_of, reg16_text, reg8_of, reg8_text, seg_of, seg_text, CpuState, Flags, Reg16, Reg8, SegReg,
};
use crate::error::EmuError;
use crate::executable::InteruptChange;
use crate::modrm::{ea_linear, ea_offset, modrm_spec, operand_text, sign_extend, ModRm};
use crate::text::{escape_bytes, hex_text, lossy_of, signed16};

verus! {

/// One decoded instruction, without prefixes.
#[allow(inconsistent_fields)]
#[derive(Debug, Clone, Copy, PartialEq, Eq, Structural)]
pub enum Instr {
    Nop,
    PushReg(Reg16),
    PopReg(Reg16),
    PushSeg(SegReg),
    PopSeg(SegReg),
    /// `op reg, r/m` on words (`dst` is both an input and, but for `cmp`, the output).
    AluRegRm { op: AluOp, dst: Reg16, src: ModRm },
    /// `op r/m, imm` on words; `shown` is the immediate as it stands in the code.
    AluRmImm { op: AluOp, dst: ModRm, imm: u16, shown: u16 },
    MovRegRm { dst: Reg16, src: ModRm },
    MovRmSeg { dst: ModRm, seg: SegReg },
    Lea { dst: Reg16, src: ModRm },
    MovSegRm { seg: SegReg, src: ModRm },
    Scasb,
    MovReg8Imm { dst: Reg8, imm: u8 },
    MovReg16Imm { dst: Reg16, imm: u16 },
    Ret,
    /// A software interrupt with no registered service.
    Int { vector: u8 },
    /// DOS "print string": the image bytes `[begin, end)`, up to the `$`.
    PrintString { begin: u16, end: u16 },
    /// A near call; `target` is the cursor position it transfers to.
    Call { target: u16 },
    Test { dst: ModRm, imm: u16 },
    Not { dst: ModRm },
    Neg { dst: ModRm },
}

/// How often an instruction runs: once, or under a repeat prefix.
#[derive(Debug, Clone, Copy, PartialEq, Eq, Structural)]
pub enum Repeat {
    Once,
    /// REPNE: repeat while CX is not zero and ZF is clear.
    WhileNotEqual,
    /// REPE: repeat while CX is not zero and ZF is set.
    WhileEqual,
}

/// A decoded instruction with its repeat prefix.
#[derive(Debug, Clone, Copy, PartialEq, Eq, Structural)]
pub struct Step {
    pub repeat: Repeat,
    pub instr: Instr,
}

/// The emulated machine: CPU state, image and cursor.
pub struct Machine {
    pub cpu: CpuState,
    pub mem: Seq<u8>,
    pub pos: int,
}

/// What one instruction produced: its text, its effect, the position after its
/// bytes, and the machine afterwards.
pub struct Outcome {
    pub text: Seq<char>,
    pub effect: InteruptChange,
    pub next: int,
    pub machine: Machine,
}

/// The most iterations a repeat prefix runs, whatever CX holds.
pub const REPEAT_CAP: u32 = 0x10000;

/// The DOS "print string" terminator, `$`.
pub const DOLLAR: u8 = 0x24;

/// The end of the addressable segment for a `$`-terminated string.
pub open spec fn string_limit(b: Seq<u8>) -> int {
    if b.len() < 0x10000 {
        b.len() as int
    } else {
        0x10000
    }
}

/// `k` is the first `$` at or after `begin`, below `limit`.
pub open spec fn is_first_dollar(b: Seq<u8>, begin: int, limit: int, k: int) -> bool {
    begin <= k < limit && b[k] == DOLLAR && forall|j: int| begin <= j < k ==> b[j] != DOLLAR
}

/// The "print string" service's range, or `TerminatorNotFound`: the string
/// starts at the image offset held in DX and ends before the first `$`.
pub open spec fn print_range(c: CpuState, b: Seq<u8>) -> Result<(u16, u16), EmuError> {
    let begin = c.reg16(Reg16::Dx) as int;
    let limit = string_limit(b);
    if exists|k: int| is_first_dollar(b, begin, limit, k) {
        Ok((begin as u16, (choose|k: int| is_first_dollar(b, begin, limit, k)) as u16))
    } else {
        Err(EmuError::TerminatorNotFound)
    }
}

/// The instruction for `int vector` given the CPU state: DOS "print string"
/// for vector 0x21 with AH = 9, a plain interrupt otherwise.
pub open spec fn int_spec(vector: u8, c: CpuState, b: Seq<u8>) -> Result<Instr, EmuError> {
    if vector == 0x21 && c.ah == 9 {
        match print_range(c, b) {
            Ok((begin, end)) => Ok(Instr::PrintString { begin, end }),
            Err(e) => Err(e),
        }
    } else {
        Ok(Instr::Int { vector })
    }
}

/// Whether `op` is one of the `op reg16, r/m16` arithmetic opcodes (0x03, 0x0B, ..., 0x3B).
pub open spec fn is_alu_reg_rm(op: u8) -> bool {
    op < 0x40 && op % 8 == 3
}

/// Whether `op` takes a ModRM byte in this table.
pub open spec fn has_modrm(op: u8) -> bool {
    is_alu_reg_rm(op) || op == 0x81 || op == 0x83 || op == 0x8B || op == 0x8C || op == 0x8D || op == 0x8E
        || op == 0xF7
}

/// The instruction of a ModRM opcode, given its decoded ModRM and the
/// position `q` after it.
pub open spec fn modrm_instr_spec(op: u8, m: ModRm, b: Seq<u8>, q: int) -> Result<(Instr, int), EmuError> {
    if is_alu_reg_rm(op) {
        Ok((Instr::AluRegRm { op: alu_op_of(op / 8), dst: reg16_of(m.reg), src: m }, q))
    } else if op == 0x81 {
        if !fits(b.len() as int, q, 2) {
            Err(EmuError::BufferUnderrun)
        } else {
            let w = word_at(b, q);
            Ok((Instr::AluRmImm { op: alu_op_of(m.reg), dst: m, imm: w, shown: w }, q + 2))
        }
    } else if op == 0x83 {
        if !fits(b.len() as int, q, 1) {
            Err(EmuError::BufferUnderrun)
        } else {
            Ok((Instr::AluRmImm { op: alu_op_of(m.reg), dst: m, imm: sign_extend(b[q]), shown: b[q] as u16 }, q + 1))
        }
    } else if op == 0x8B {
        Ok((Instr::MovRegRm { dst: reg16_of(m.reg), src: m }, q))
    } else if op == 0x8C {
        match seg_of(m.reg) {
            Some(s) => Ok((Instr::MovRmSeg { dst: m, seg: s }, q)),
            None => Err(EmuError::UnknownRegister),
        }
    } else if op == 0x8D {
        if m.mode == 3 {
            Err(EmuError::UnsupportedOpcode(op))
        } else {
            Ok((Instr::Lea { dst: reg16_of(m.reg), src: m }, q))
        }
    } else if op == 0x8E {
        match seg_of(m.reg) {
            Some(s) => Ok((Instr::MovSegRm { seg: s, src: m }, q)),
            None => Err(EmuError::UnknownRegister),
        }
    } else {
        if m.reg == 0 {
            if !fits(b.len() as int, q, 2) {
                Err(EmuError::BufferUnderrun)
            } else {
                Ok((Instr::Test { dst: m, imm: word_at(b, q) }, q + 2))
            }
        } else if m.reg == 2 {
            Ok((Instr::Not { dst: m }, q))
        } else if m.reg == 3 {
            Ok((Instr::Neg { dst: m }, q))
        } else {
            Err(EmuError::UnsupportedOpcode(op))
        }
    }
}

/// Decodes the instruction whose opcode `op` has been read, with its operand
/// bytes starting at `p`; returns it and the position after it. Prefixes are
/// not instructions here.
pub open spec fn body_spec(op: u8, c: CpuState, b: Seq<u8>, p: int) -> Result<(Instr, int), EmuError> {
    let len = b.len() as int;
    if op == 0x00 {
        Ok((Instr::Nop, p))
    } else if op == 0x06 || op == 0x0E || op == 0x16 || op == 0x1E {
        Ok((Instr::PushSeg(seg_of(op / 8)->Some_0), p))
    } else if op == 0x07 || op == 0x17 || op == 0x1F {
        Ok((Instr::PopSeg(seg_of(op / 8)->Some_0), p))
    } else if has_modrm(op) {
        match modrm_spec(b, p) {
            Ok((m, q)) => modrm_instr_spec(op, m, b, q),
            Err(e) => Err(e),
        }
    } else if 0x50 <= op < 0x58 {
        Ok((Instr::PushReg(reg16_of((op - 0x50) as u8)), p))
    } else if 0x58 <= op < 0x60 {
        Ok((Instr::PopReg(reg16_of((op - 0x58) as u8)), p))
    } else if op == 0xAE {
        Ok((Instr::Scasb, p))
    } else if 0xB0 <= op < 0xB8 {
        if !fits(len, p, 1) {
            Err(EmuError::BufferUnderrun)
        } else {
            Ok((Instr::MovReg8Imm { dst: reg8_of((op - 0xB0) as u8), imm: b[p] }, p + 1))
        }
    } else if 0xB8 <= op < 0xC0 {
        if !fits(len, p, 2) {
            Err(EmuError::BufferUnderrun)
        } else {
            Ok((Instr::MovReg16Imm { dst: reg16_of((op - 0xB8) as u8), imm: word_at(b, p) }, p + 2))
        }
    } else if op == 0xC3 {
        Ok((Instr::Ret, p))
    } else if op == 0xCD {
        if !fits(len, p, 1) {
            Err(EmuError::BufferUnderrun)
        } else {
            match int_spec(b[p], c, b) {
                Ok(i) => Ok((i, p + 1)),
                Err(e) => Err(e),
            }
        }
    } else if op == 0xE8 {
        if !fits(len, p, 2) {
            Err(EmuError::BufferUnderrun)
        } else {
            Ok((Instr::Call { target: ((p + 2 + signed16(word_at(b, p)) + 0x20000) % 0x10000) as u16 }, p + 2))
        }
    } else {
        Err(EmuError::UnsupportedOpcode(op))
    }
}

/// Decodes the instruction at `at`, opcode included.
#[verifier::opaque]
pub open spec fn decode_spec(c: CpuState, b: Seq<u8>, at: int) -> Result<(Instr, int), EmuError> {
    if !fits(b.len() as int, at, 1) {
        Err(EmuError::BufferUnderrun)
    } else {
        body_spec(b[at], c, b, at + 1)
    }
}

/// Whether an instruction may stand under a repeat prefix: control transfers
/// and interrupts may not.
pub open spec fn repeatable(i: Instr) -> bool {
    match i {
        Instr::Call { .. } | Instr::Ret | Instr::Int { .. } | Instr::PrintString { .. } => false,
        _ => true,
    }
}

/// Decodes what follows the opcode `op` read just before `p`, a repeat
/// prefix and its instruction included.
pub open spec fn step_decode_spec(op: u8, c: CpuState, b: Seq<u8>, p: int) -> Result<(Step, int), EmuError> {
    if op == 0xF2 || op == 0xF3 {
        match decode_spec(c, b, p) {
            Ok((i, q)) => if repeatable(i) {
                Ok((Step { repeat: if op == 0xF2 { Repeat::WhileNotEqual } else { Repeat::WhileEqual }, instr: i }, q))
            } else {
                Err(EmuError::UnsupportedOpcode(b[p]))
            },
            Err(e) => Err(e),
        }
    } else {
        match body_spec(op, c, b, p) {
            Ok((i, q)) => Ok((Step { repeat: Repeat::Once, instr: i }, q)),
            Err(e) => Err(e),
        }
    }
}

/// The disassembly of an instruction.
#[verifier::opaque]
pub open spec fn instr_text(i: Instr, b: Seq<u8>) -> Seq<char> {
    match i {
        Instr::Nop => "nop"@,
        Instr::PushReg(r) => "push "@ + reg16_text(r),
        Instr::PopReg(r) => "pop "@ + reg16_text(r),
        Instr::PushSeg(s) => "push "@ + seg_text(s),
        Instr::PopSeg(s) => "pop "@ + seg_text(s),
        Instr::AluRegRm { op, dst, src } => alu_text(op) + " "@ + reg16_text(dst) + ","@ + operand_text(src),
        Instr::AluRmImm { op, dst, shown, .. } => alu_text(op) + " "@ + operand_text(dst) + ",0x"@ + hex_text(
            shown as nat,
        ),
        Instr::MovRegRm { dst, src } => "mov "@ + reg16_text(dst) + ","@ + operand_text(src),
        Instr::MovRmSeg { dst, seg } => "mov "@ + operand_text(dst) + ","@ + seg_text(seg),
        Instr::Lea { dst, src } => "lea "@ + reg16_text(dst) + ","@ + operand_text(src),
        Instr::MovSegRm { seg, src } => "mov "@ + seg_text(seg) + ","@ + operand_text(src),
        Instr::Scasb => "scasb"@,
        Instr::MovReg8Imm { dst, imm } => "mov "@ + reg8_text(dst) + ",0x"@ + hex_text(imm as nat),
        Instr::MovReg16Imm { dst, imm } => "mov "@ + reg16_text(dst) + ",0x"@ + hex_text(imm as nat),
        Instr::Ret => "ret"@,
        Instr::Int { vector } => "int "@ + hex_text(vector as nat) + "h"@,
        Instr::PrintString { begin, end } => "int 21h\n; printf("@ + lossy_of(
            escape_bytes(b.subrange(begin as int, end as int)),
        ) + ");"@,
        Instr::Call { target } => "call 0x"@ + hex_text(target as nat),
        Instr::Test { dst, imm } => "test "@ + operand_text(dst) + ",0x"@ + hex_text(imm as nat),
        Instr::Not { dst } => "not "@ + operand_text(dst),
        Instr::Neg { dst } => "neg "@ + operand_text(dst),
    }
}

/// The disassembly of an instruction with its prefix.
pub open spec fn step_text(s: Step, b: Seq<u8>) -> Seq<char> {
    match s.repeat {
        Repeat::Once => instr_text(s.instr, b),
        Repeat::WhileNotEqual => "repne "@ + instr_text(s.instr, b),
        Repeat::WhileEqual => "repe "@ + instr_text(s.instr, b),
    }
}

/// The value of a word operand: a register, or the word at its linear address.
pub open spec fn read_rm_spec(m: ModRm, c: CpuState, b: Seq<u8>) -> Result<u16, EmuError> {
    if m.mode == 3 {
        Ok(c.reg16(reg16_of(m.rm)))
    } else if fits(b.len() as int, ea_linear(m, c), 2) {
        Ok(word_at(b, ea_linear(m, c)))
    } else {
        Err(EmuError::BufferUnderrun)
    }
}

/// The CPU state and image after writing `v` to a word operand.
pub open spec fn write_rm_spec(m: ModRm, c: CpuState, b: Seq<u8>, v: u16) -> Result<(CpuState, Seq<u8>), EmuError> {
    if m.mode == 3 {
        Ok((c.with_reg16(reg16_of(m.rm), v), b))
    } else if fits(b.len() as int, ea_linear(m, c), 2) {
        Ok((c, put_word(b, ea_linear(m, c), v)))
    } else {
        Err(EmuError::BufferUnderrun)
    }
}

/// The machine after the operation `op` on `r/m` and `v` (the result is
/// written back, but for `cmp`), with the flags it sets.
pub open spec fn alu_rm_spec(op: AluOp, dst: ModRm, v: u16, c: CpuState, b: Seq<u8>, next: int) -> Result<Machine, EmuError> {
    match read_rm_spec(dst, c, b) {
        Ok(a) => {
            let (r, f) = alu_spec(op, a, v, c.flags);
            if op == AluOp::Cmp {
                Ok(Machine { cpu: c.with_flags(f), mem: b, pos: next })
            } else {
                match write_rm_spec(dst, c, b, r) {
                    Ok((c2, b2)) => Ok(Machine { cpu: c2.with_flags(f), mem: b2, pos: next }),
                    Err(e) => Err(e),
                }
            }
        },
        Err(e) => Err(e),
    }
}

/// The machine after SCASB: ZF tells whether AL equals the byte at ES:DI, and
/// DI moves one byte forward (DF clear) or back (DF set), modulo 2^16.
pub open spec fn scasb_spec(c: CpuState, b: Seq<u8>, next: int) -> Result<Machine, EmuError> {
    let a = (c.es * 16 + c.di) % 0x100000;
    if !fits(b.len() as int, a, 1) {
        Err(EmuError::BufferUnderrun)
    } else {
        let di = if c.flags.df {
            (c.di + 0xFFFF) % 0x10000
        } else {
            (c.di + 1) % 0x10000
        };
        Ok(Machine { cpu: CpuState { di: di as u16, flags: Flags { zf: b[a] == c.al, ..c.flags }, ..c }, mem: b, pos: next })
    }
}

/// The machine after running one instruction whose bytes end at `next`.
///
/// Word operands in memory are read and written little-endian at their linear
/// address in the image. Flags: the arithmetic group sets them as `alu_spec`
/// says; TEST clears CF and OF and sets ZF, SF and PF from the operand (its
/// immediate is decoded and shown, not applied);
/// NEG sets CF when the result is not zero, OF when it is 0x8000, and ZF, SF
/// and PF from the result; SCASB sets ZF only; AF is left alone by TEST and
/// NEG, and NOT, MOV, LEA, push and pop change no flag. CALL pushes the
/// position after it (modulo 2^16) and moves the cursor to its target; RET
/// pops the cursor.
#[verifier::opaque]
pub open spec fn exec_spec(i: Instr, c: CpuState, b: Seq<u8>, next: int) -> Result<Machine, EmuError> {
    let same = Machine { cpu: c, mem: b, pos: next };
    match i {
        Instr::Nop | Instr::Int { .. } | Instr::PrintString { .. } => Ok(same),
        Instr::PushReg(r) => Ok(Machine { cpu: c.pushed(c.reg16(r)), ..same }),
        Instr::PushSeg(s) => Ok(Machine { cpu: c.pushed(c.seg(s)), ..same }),
        Instr::PopReg(r) => match c.popped() {
            Ok((v, c2)) => Ok(Machine { cpu: c2.with_reg16(r, v), ..same }),
            Err(e) => Err(e),
        },
        Instr::PopSeg(s) => match c.popped() {
            Ok((v, c2)) => Ok(Machine { cpu: c2.with_seg(s, v), ..same }),
            Err(e) => Err(e),
        },
        Instr::AluRegRm { op, dst, src } => match read_rm_spec(src, c, b) {
            Ok(v) => {
                let (r, f) = alu_spec(op, c.reg16(dst), v, c.flags);
                let c2 = if op == AluOp::Cmp { c } else { c.with_reg16(dst, r) };
                Ok(Machine { cpu: c2.with_flags(f), ..same })
            },
            Err(e) => Err(e),
        },
        Instr::AluRmImm { op, dst, imm, .. } => alu_rm_spec(op, dst, imm, c, b, next),
        Instr::MovRegRm { dst, src } => match read_rm_spec(src, c, b) {
            Ok(v) => Ok(Machine { cpu: c.with_reg16(dst, v), ..same }),
            Err(e) => Err(e),
        },
        Instr::MovRmSeg { dst, seg } => match write_rm_spec(dst, c, b, c.seg(seg)) {
            Ok((c2, b2)) => Ok(Machine { cpu: c2, mem: b2, pos: next }),
            Err(e) => Err(e),
        },
        Instr::Lea { dst, src } => Ok(Machine { cpu: c.with_reg16(dst, ea_offset(src, c)), ..same }),
        Instr::MovSegRm { seg, src } => match read_rm_spec(src, c, b) {
            Ok(v) => Ok(Machine { cpu: c.with_seg(seg, v), ..same }),
            Err(e) => Err(e),
        },
        Instr::Scasb => scasb_spec(c, b, next),
        Instr::MovReg8Imm { dst, imm } => Ok(Machine { cpu: c.with_reg8(dst, imm), ..same }),
        Instr::MovReg16Imm { dst, imm } => Ok(Machine { cpu: c.with_reg16(dst, imm), ..same }),
        Instr::Ret => match c.popped() {
            Ok((v, c2)) => Ok(Machine { cpu: c2, mem: b, pos: v as int }),
            Err(e) => Err(e),
        },
        Instr::Call { target } => Ok(Machine { cpu: c.pushed((next % 0x10000) as u16), mem: b, pos: target as int }),
        Instr::Test { dst, .. } => match read_rm_spec(dst, c, b) {
            Ok(a) => Ok(Machine { cpu: c.with_flags(Flags { cf: false, of: false, ..result_flags(c.flags, a) }), ..same }),
            Err(e) => Err(e),
        },
        Instr::Not { dst } => match read_rm_spec(dst, c, b) {
            Ok(a) => match write_rm_spec(dst, c, b, (0xFFFF - a) as u16) {
                Ok((c2, b2)) => Ok(Machine { cpu: c2, mem: b2, pos: next }),
                Err(e) => Err(e),
            },
            Err(e) => Err(e),
        },
        Instr::Neg { dst } => match read_rm_spec(dst, c, b) {
            Ok(a) => {
                let r = ((0x10000 - a) % 0x10000) as u16;
                match write_rm_spec(dst, c, b, r) {
                    Ok((c2, b2)) => Ok(Machine {
                        cpu: c2.with_flags(Flags { cf: r != 0, of: r == 0x8000, ..result_flags(c.flags, r) }),
                        mem: b2,
                        pos: next,
                    }),
                    Err(e) => Err(e),
                }
            },
            Err(e) => Err(e),
        },
    }
}

/// Whether a repeat prefix stops after an iteration that left ZF as `zf`.
pub open spec fn stops(rep: Repeat, zf: bool) -> bool {
    match rep {
        Repeat::WhileNotEqual => zf,
        Repeat::WhileEqual => !zf,
        Repeat::Once => true,
    }
}

/// Runs the instruction at `at` under a repeat prefix, at most `fuel` times.
///
/// Each iteration first stops if CX is zero, decodes the instruction again
/// (a text other than `text` is `InconsistentRepeatDecode`), runs it,
/// decrements CX modulo 2^16, and stops if ZF says so.
pub open spec fn repeat_spec(rep: Repeat, m: Machine, at: int, text: Seq<char>, fuel: nat) -> Result<Machine, EmuError>
    decreases fuel,
{
    if fuel == 0 || m.cpu.reg16(Reg16::Cx) == 0 {
        Ok(m)
    } else {
        match decode_spec(m.cpu, m.mem, at) {
            Ok((i, q)) => if instr_text(i, m.mem) != text {
                Err(EmuError::InconsistentRepeatDecode)
            } else {
                match exec_spec(i, m.cpu, m.mem, q) {
                    Ok(m2) => {
                        let cx = m2.cpu.reg16(Reg16::Cx);
                        let c3 = m2.cpu.with_reg16(Reg16::Cx, ((cx + 0xFFFF) % 0x10000) as u16);
                        let m3 = Machine { cpu: c3, ..m2 };
                        if stops(rep, c3.flags.zf) {
                            Ok(m3)
                        } else {
                            repeat_spec(rep, m3, at, text, (fuel - 1) as nat)
                        }
                    },
                    Err(e) => Err(e),
                }
            },
            Err(e) => Err(e),
        }
    }
}

/// The effect an executed instruction reports.
pub open spec fn effect_of(i: Instr) -> InteruptChange {
    match i {
        Instr::PrintString { begin, end } => InteruptChange::String(begin, end),
        _ => InteruptChange::NoChange,
    }
}

/// What decoding an instruction yields in either mode: its text, the position
/// after its bytes, and what running it did (always nothing when not
/// executing).
pub struct Report {
    pub text: Seq<char>,
    pub next: int,
    pub run: Result<(InteruptChange, Machine), EmuError>,
}

/// The effect and the machine after running the decoded step `s` (whose
/// prefix or opcode was read just before `p` and whose bytes end at `next`),
/// or the machine unchanged but for the cursor when not executing.
pub open spec fn run_decoded(s: Step, execute: bool, c: CpuState, b: Seq<u8>, p: int, next: int) -> Result<(InteruptChange, Machine), EmuError> {
    if !execute {
        Ok((InteruptChange::NoChange, Machine { cpu: c, mem: b, pos: next }))
    } else if s.repeat == Repeat::Once {
        match exec_spec(s.instr, c, b, next) {
            Ok(m) => Ok((effect_of(s.instr), m)),
            Err(e) => Err(e),
        }
    } else {
        match repeat_spec(s.repeat, Machine { cpu: c, mem: b, pos: p }, p, instr_text(s.instr, b), REPEAT_CAP as nat) {
            Ok(m) => Ok((InteruptChange::NoChange, Machine { pos: next, ..m })),
            Err(e) => Err(e),
        }
    }
}

/// Decodes what follows opcode `op` (read just before `p`) and, when
/// `execute` is set, runs it. A decoding failure is the error; otherwise the
/// text and the position after the instruction come from decoding alone, and
/// `run` holds the outcome of running it.
pub open spec fn report_spec(op: u8, execute: bool, c: CpuState, b: Seq<u8>, p: int) -> Result<Report, EmuError> {
    match step_decode_spec(op, c, b, p) {
        Ok((s, next)) => Ok(Report { text: step_text(s, b), next, run: run_decoded(s, execute, c, b, p, next) }),
        Err(e) => Err(e),
    }
}

/// What the handler of opcode `op` does with the bytes from `p` on: the
/// report, with a failure to run the instruction as the result's error.
///
/// Decoding, and so the text and the position after the instruction, does not
/// depend on `execute`. Without `execute` nothing else changes and the cursor
/// moves past the instruction; with it the instruction also runs.
pub open spec fn handler_spec(op: u8, execute: bool, c: CpuState, b: Seq<u8>, p: int) -> Result<Outcome, EmuError> {
    match report_spec(op, execute, c, b, p) {
        Ok(r) => match r.run {
            Ok((effect, m)) => Ok(Outcome { text: r.text, effect, next: r.next, machine: m }),
            Err(e) => Err(e),
        },
        Err(e) => Err(e),
    }
}

/// The report of the instruction at `at`, opcode included.
pub open spec fn step_report_spec(execute: bool, c: CpuState, b: Seq<u8>, at: int) -> Result<Report, EmuError> {
    if !fits(b.len() as int, at, 1) {
        Err(EmuError::BufferUnderrun)
    } else {
        report_spec(b[at], execute, c, b, at + 1)
    }
}

/// Decoding alone and decoding with execution consume the same bytes and give
/// the same text, for every opcode, operand bytes and CPU state: either both
/// fail to decode with the same error, or both decode with the same text and
/// the same position after the instruction, whatever running it then does.
/// Decoding alone changes nothing but the cursor.
pub proof fn lemma_modes_agree(op: u8, c: CpuState, b: Seq<u8>, p: int)
    ensures
        report_spec(op, true, c, b, p) is Ok <==> report_spec(op, false, c, b, p) is Ok,
        report_spec(op, false, c, b, p) is Err ==> report_spec(op, true, c, b, p) == report_spec(op, false, c, b, p),
        report_spec(op, false, c, b, p) is Ok ==> ({
            let t = report_spec(op, true, c, b, p)->Ok_0;
            let f = report_spec(op, false, c, b, p)->Ok_0;
            &&& t.text == f.text
            &&& t.next == f.next
            &&& f.run == Ok::<(InteruptChange, Machine), EmuError>(
                (InteruptChange::NoChange, Machine { cpu: c, mem: b, pos: f.next }),
            )
        }),
{
}

/// The same agreement for a whole instruction, opcode included.
pub proof fn lemma_step_modes_agree(c: CpuState, b: Seq<u8>, at: int)
    ensures
        step_report_spec(true, c, b, at) is Ok <==> step_report_spec(false, c, b, at) is Ok,
        step_report_spec(false, c, b, at) is Err ==> step_report_spec(true, c, b, at) == step_report_spec(false, c, b, at),
        step_report_spec(false, c, b, at) is Ok ==> step_report_spec(true, c, b, at)->Ok_0.text
            == step_report_spec(false, c, b, at)->Ok_0.text && step_report_spec(true, c, b, at)->Ok_0.next
            == step_report_spec(false, c, b, at)->Ok_0.next,
{
    if fits(b.len() as int, at, 1) {
        lemma_modes_agree(b[at], c, b, at + 1);
    }
}

/// What one instruction at `at` does, opcode included.
pub open spec fn step_spec(execute: bool, c: CpuState, b: Seq<u8>, at: int) -> Result<Outcome, EmuError> {
    if !fits(b.len() as int, at, 1) {
        Err(EmuError::BufferUnderrun)
    } else {
        handler_spec(b[at], execute, c, b, at + 1)
    }
}

/// Decoding alone and decoding with execution agree: where execution succeeds,
/// decoding alone succeeds with the same text and the same position after the
/// instruction; where decoding alone fails, execution fails the same way; and
/// decoding alone changes nothing but the cursor.
pub proof fn lemma_decode_matches_execute(op: u8, c: CpuState, b: Seq<u8>, p: int)
    ensures
        handler_spec(op, true, c, b, p) is Ok ==> handler_spec(op, false, c, b, p) is Ok
            && handler_spec(op, false, c, b, p)->Ok_0.text == handler_spec(op, true, c, b, p)->Ok_0.text
            && handler_spec(op, false, c, b, p)->Ok_0.next == handler_spec(op, true, c, b, p)->Ok_0.next,
        handler_spec(op, false, c, b, p) is Err ==> handler_spec(op, true, c, b, p) == handler_spec(op, false, c, b, p),
        handler_spec(op, false, c, b, p) is Ok ==> ({
            let o = handler_spec(op, false, c, b, p)->Ok_0;
            o.machine.cpu == c && o.machine.mem == b && o.machine.pos == o.next
        }),
{
}

/// The disassembly of the image from `at` on, decoding only, one line per
/// instruction, or the first error.
pub open spec fn listing(c: CpuState, b: Seq<u8>, at: int) -> Result<Seq<Seq<char>>, EmuError>
    decreases (b.len() - at) as nat,
{
    if at < 0 || at >= b.len() {
        Ok(Seq::empty())
    } else {
        match step_spec(false, c, b, at) {
            Ok(o) => if at < o.next <= b.len() {
                match listing(c, b, o.next) {
                    Ok(rest) => Ok(seq![o.text] + rest),
                    Err(e) => Err(e),
                }
            } else {
                Ok(seq![o.text])
            },
            Err(e) => Err(e),
        }
    }
}

/// What an emulation run produced: the text of each instruction run, the
/// bytes emitted to the console, and the final machine.
pub struct Run {
    pub lines: Seq<Seq<char>>,
    pub out: Seq<u8>,
    pub machine: Machine,
}

/// The bytes an effect emits to the console.
pub open spec fn emitted(e: InteruptChange, b: Seq<u8>) -> Seq<u8> {
    match e {
        InteruptChange::String(s, t) => b.subrange(s as int, t as int),
        InteruptChange::NoChange => Seq::empty(),
    }
}

/// Runs instructions from the machine's cursor until it leaves the image or
/// `fuel` instructions have run; the first error ends the run.
pub open spec fn run_spec(m: Machine, fuel: nat) -> Result<Run, EmuError>
    decreases fuel,
{
    if fuel == 0 || m.pos < 0 || m.pos >= m.mem.len() {
        Ok(Run { lines: Seq::empty(), out: Seq::empty(), machine: m })
    } else {
        match step_spec(true, m.cpu, m.mem, m.pos) {
            Ok(o) => match run_spec(o.machine, (fuel - 1) as nat) {
                Ok(rest) => Ok(
                    Run {
                        lines: seq![o.text] + rest.lines,
                        out: emitted(o.effect, m.mem) + rest.out,
                        machine: rest.machine,
                    },
                ),
                Err(e) => Err(e),
            },
            Err(e) => Err(e),
        }
    }
}

/// Decoding moves past the opcode and never past the end of the image.
pub proof fn lemma_step_advances(execute: bool, c: CpuState, b: Seq<u8>, at: int)
    ensures
        step_spec(execute, c, b, at) is Ok ==> at < step_spec(execute, c, b, at)->Ok_0.next <= b.len(),
{
    reveal(decode_spec);
}

/// An executed "print string" reports a range inside the image and leaves the
/// image as it was.
pub proof fn lemma_effect_in_image(c: CpuState, b: Seq<u8>, at: int)
    ensures
        step_spec(true, c, b, at) is Ok ==> match step_spec(true, c, b, at)->Ok_0.effect {
            InteruptChange::String(s, t) => s <= t <= b.len() && step_spec(true, c, b, at)->Ok_0.machine.mem == b,
            InteruptChange::NoChange => true,
        },
{
    reveal(exec_spec);
    if step_spec(true, c, b, at) is Ok && fits(b.len() as int, at, 1) {
        let op = b[at];
        if op == 0xCD && b.len() > at + 1 && b[at + 1] == 0x21 && c.ah == 9 {
            let begin = c.reg16(Reg16::Dx) as int;
            if exists|k: int| is_first_dollar(b, begin, string_limit(b), k) {
                let k = choose|k: int| is_first_dollar(b, begin, string_limit(b), k);
                assert(is_first_dollar(b, begin, string_limit(b), k));
            }
        }
    }
}

/// The lenient disassembly of the image from `at` on: an undecodable byte
/// becomes a `db` line and decoding goes on with the next byte.
pub open spec fn lenient_listing(c: CpuState, b: Seq<u8>, at: int) -> Seq<Seq<char>>
    decreases (b.len() - at) as nat,
{
    if at < 0 || at >= b.len() {
        Seq::empty()
    } else {
        match step_spec(false, c, b, at) {
            Ok(o) => if at < o.next <= b.len() {
                seq![o.text] + lenient_listing(c, b, o.next)
            } else {
                seq![o.text]
            },
            Err(_) => seq!["db 0x"@ + hex_text(b[at] as nat)] + lenient_listing(c, b, at + 1),
        }
    }
}

/// The cursor ends right after the bytes of the instruction, which lie past
/// its opcode, unless an executed CALL or RET transferred control.
pub proof fn lemma_cursor_after_instruction(op: u8, execute: bool, c: CpuState, b: Seq<u8>, p: int)
    ensures
        handler_spec(op, execute, c, b, p) is Ok ==> ({
            let s = step_decode_spec(op, c, b, p)->Ok_0.0;
            let o = handler_spec(op, execute, c, b, p)->Ok_0;
            &&& p <= o.next
            &&& (!execute || !(s.instr is Call || s.instr is Ret)) ==> o.machine.pos == o.next
        }),
{
    reveal(exec_spec);
    reveal(decode_spec);
}

} // verus!
