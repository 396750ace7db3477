use vstd::prelude::*;
use crate::alu::{alu, with_result_flags, AluOp};
use crate::byte_stream::ByteStream;
use crate::cpu::{reg16_from_index, Cpu, Flags, Reg16};
use crate::error::EmuError;
use crate::instr::{alu_rm_spec, exec_spec, read_rm_spec, scasb_spec, write_rm_spec, Instr, Machine};
use crate::modrm::{effective_linear, effective_offset, ModRm};

verus! {

/// The CPU, image and cursor are the machine `m`.
pub open spec fn holds(cpu: crate::cpu::CpuState, b: Seq<u8>, pos: int, m: Machine) -> bool {
    cpu == m.cpu && b == m.mem && pos == m.pos
}

/// The value of a word operand.
pub fn read_rm(m: ModRm, cpu: &Cpu, bst: &ByteStream) -> (r: Result<u16, EmuError>)
    ensures
        r == read_rm_spec(m, cpu@, bst@),
{
    if m.mode == 3 {
        Ok(cpu.get_reg(reg16_from_index(m.rm)))
    } else {
        bst.read_word_at(effective_linear(cpu, m))
    }
}

/// Writes `v` to a word operand.
pub fn write_rm(m: ModRm, v: u16, cpu: &mut Cpu, bst: &mut ByteStream) -> (r: Result<(), EmuError>)
    ensures
        final(bst).cursor() == old(bst).cursor(),
        r is Err ==> final(cpu)@ == old(cpu)@ && final(bst)@ == old(bst)@,
        match write_rm_spec(m, old(cpu)@, old(bst)@, v) {
            Ok((c, b)) => r is Ok && final(cpu)@ == c && final(bst)@ == b,
            Err(e) => r == Err::<(), EmuError>(e),
        },
{
    if m.mode == 3 {
        cpu.set_reg(reg16_from_index(m.rm), v);
        Ok(())
    } else {
        let a = effective_linear(cpu, m);
        bst.replace_word(a, v)
    }
}

/// Runs `op` on a word operand and `v`, writing the result back but for `cmp`.
pub fn exec_alu_rm(op: AluOp, dst: ModRm, v: u16, cpu: &mut Cpu, bst: &mut ByteStream, next: usize) -> (r: Result<(), EmuError>)
    ensures
        r is Err ==> final(cpu)@ == old(cpu)@ && final(bst)@ == old(bst)@ && final(bst).cursor() == old(bst).cursor(),
        match alu_rm_spec(op, dst, v, old(cpu)@, old(bst)@, next as int) {
            Ok(m) => r is Ok && holds(final(cpu)@, final(bst)@, final(bst).cursor() as int, m),
            Err(e) => r == Err::<(), EmuError>(e),
        },
{
    let a = match read_rm(dst, cpu, bst) {
        Ok(a) => a,
        Err(e) => return Err(e),
    };
    let (res, f) = alu(op, a, v, cpu.flags());
    if op != AluOp::Cmp {
        match write_rm(dst, res, cpu, bst) {
            Ok(()) => {},
            Err(e) => return Err(e),
        }
    }
    cpu.set_flag_bits(f);
    bst.set_pos(next);
    Ok(())
}

/// Runs SCASB.
pub fn exec_scasb(cpu: &mut Cpu, bst: &mut ByteStream, next: usize) -> (r: Result<(), EmuError>)
    ensures
        r is Err ==> final(cpu)@ == old(cpu)@ && final(bst)@ == old(bst)@ && final(bst).cursor() == old(bst).cursor(),
        match scasb_spec(old(cpu)@, old(bst)@, next as int) {
            Ok(m) => r is Ok && holds(final(cpu)@, final(bst)@, final(bst).cursor() as int, m),
            Err(e) => r == Err::<(), EmuError>(e),
        },
{
    let es = cpu.get_seg(crate::cpu::SegReg::Es);
    let di = cpu.get_reg(Reg16::Di);
    let a = ((es as u32 * 16 + di as u32) % 0x100000) as usize;
    let byte = match bst.read_byte_at(a) {
        Ok(b) => b,
        Err(e) => return Err(e),
    };
    let f = cpu.flags();
    let al = cpu.get_reg8(crate::cpu::Reg8::Al);
    let new_di: u16 = if f.df {
        ((di as u32 + 0xFFFF) % 0x10000) as u16
    } else {
        ((di as u32 + 1) % 0x10000) as u16
    };
    cpu.set_reg(Reg16::Di, new_di);
    cpu.set_flag_bits(Flags { zf: byte == al, ..f });
    bst.set_pos(next);
    Ok(())
}

/// Runs one instruction whose bytes end at `next`.
pub fn execute_instr(i: Instr, cpu: &mut Cpu, bst: &mut ByteStream, next: usize) -> (r: Result<(), EmuError>)
    ensures
        r is Err ==> final(cpu)@ == old(cpu)@ && final(bst)@ == old(bst)@ && final(bst).cursor() == old(bst).cursor(),
        match exec_spec(i, old(cpu)@, old(bst)@, next as int) {
            Ok(m) => r is Ok && holds(final(cpu)@, final(bst)@, final(bst).cursor() as int, m),
            Err(e) => r == Err::<(), EmuError>(e),
        },
{
    reveal(exec_spec);
    match i {
        Instr::Nop | Instr::Int { .. } | Instr::PrintString { .. } => {
            bst.set_pos(next);
            Ok(())
        },
        Instr::PushReg(reg) => {
            let v = cpu.get_reg(reg);
            cpu.push(v);
            bst.set_pos(next);
            Ok(())
        },
        Instr::PushSeg(s) => {
            let v = cpu.get_seg(s);
            cpu.push(v);
            bst.set_pos(next);
            Ok(())
        },
        Instr::PopReg(reg) => match cpu.pop() {
            Ok(v) => {
                cpu.set_reg(reg, v);
                bst.set_pos(next);
                Ok(())
            },
            Err(e) => Err(e),
        },
        Instr::PopSeg(s) => match cpu.pop() {
            Ok(v) => {
                cpu.set_seg(s, v);
                bst.set_pos(next);
                Ok(())
            },
            Err(e) => Err(e),
        },
        Instr::AluRegRm { op, dst, src } => match read_rm(src, cpu, bst) {
            Ok(v) => {
                let (res, f) = alu(op, cpu.get_reg(dst), v, cpu.flags());
                if op != AluOp::Cmp {
                    cpu.set_reg(dst, res);
                }
                cpu.set_flag_bits(f);
                bst.set_pos(next);
                Ok(())
            },
            Err(e) => Err(e),
        },
        Instr::AluRmImm { op, dst, imm, .. } => exec_alu_rm(op, dst, imm, cpu, bst, next),
        Instr::MovRegRm { dst, src } => match read_rm(src, cpu, bst) {
            Ok(v) => {
                cpu.set_reg(dst, v);
                bst.set_pos(next);
                Ok(())
            },
            Err(e) => Err(e),
        },
        Instr::MovRmSeg { dst, seg } => {
            let v = cpu.get_seg(seg);
            match write_rm(dst, v, cpu, bst) {
                Ok(()) => {
                    bst.set_pos(next);
                    Ok(())
                },
                Err(e) => Err(e),
            }
        },
        Instr::Lea { dst, src } => {
            let off = effective_offset(cpu, src);
            cpu.set_reg(dst, off);
            bst.set_pos(next);
            Ok(())
        },
        Instr::MovSegRm { seg, src } => match read_rm(src, cpu, bst) {
            Ok(v) => {
                cpu.set_seg(seg, v);
                bst.set_pos(next);
                Ok(())
            },
            Err(e) => Err(e),
        },
        Instr::Scasb => exec_scasb(cpu, bst, next),
        Instr::MovReg8Imm { dst, imm } => {
            cpu.set_reg8(dst, imm);
            bst.set_pos(next);
            Ok(())
        },
        Instr::MovReg16Imm { dst, imm } => {
            cpu.set_reg(dst, imm);
            bst.set_pos(next);
            Ok(())
        },
        Instr::Ret => match cpu.pop() {
            Ok(v) => {
                bst.set_pos(v as usize);
                Ok(())
            },
            Err(e) => Err(e),
        },
        Instr::Call { target } => {
            cpu.push((next % 0x10000) as u16);
            bst.set_pos(target as usize);
            Ok(())
        },
        Instr::Test { dst, .. } => match read_rm(dst, cpu, bst) {
            Ok(a) => {
                let f = with_result_flags(cpu.flags(), a);
                cpu.set_flag_bits(Flags { cf: false, of: false, ..f });
                bst.set_pos(next);
                Ok(())
            },
            Err(e) => Err(e),
        },
        Instr::Not { dst } => match read_rm(dst, cpu, bst) {
            Ok(a) => match write_rm(dst, 0xFFFF - a, cpu, bst) {
                Ok(()) => {
                    bst.set_pos(next);
                    Ok(())
                },
                Err(e) => Err(e),
            },
            Err(e) => Err(e),
        },
        Instr::Neg { dst } => match read_rm(dst, cpu, bst) {
            Ok(a) => {
                let res = ((0x10000 - a as u32) % 0x10000) as u16;
                let f0 = cpu.flags();
                match write_rm(dst, res, cpu, bst) {
                    Ok(()) => {
                        let f = with_result_flags(f0, res);
                        cpu.set_flag_bits(Flags { cf: res != 0, of: res == 0x8000, ..f });
                        bst.set_pos(next);
                        Ok(())
                    },
                    Err(e) => Err(e),
                }
            },
            Err(e) => Err(e),
        },
    }
}

} // verus!
