use vstd::prelude::*;
use crate::byte_stream::ByteStream;
use crate::cpu::{Cpu, Reg16, Reg8};
use crate::error::EmuError;
use crate::executable::InteruptChange;
use crate::execute::holds;
use crate::instr::{handler_spec, int_spec, is_first_dollar, print_range, string_limit, Instr, DOLLAR};
use crate::x86_16::{fails_cleanly, run_opcode};

verus! {

/// The range of the DOS "print string" service: from DX up to the first `$`
/// below the end of the image and of the 64 KiB segment.
pub fn find_print_range(cpu: &Cpu, bst: &ByteStream) -> (r: Result<(u16, u16), EmuError>)
    ensures
        r == print_range(cpu@, bst@),
{
    let begin = cpu.get_reg(Reg16::Dx);
    let ghost limit = string_limit(bst@);
    match bst.find_first_byte_from(begin as usize, DOLLAR) {
        Ok(k) => {
            if k < 0x10000 {
                assert(is_first_dollar(bst@, begin as int, limit, k as int));
                let ghost chosen = choose|j: int| is_first_dollar(bst@, begin as int, limit, j);
                assert(is_first_dollar(bst@, begin as int, limit, chosen));
                assert(chosen == k as int) by {
                    if chosen < k {
                        assert(bst@[chosen] != DOLLAR);
                    }
                    if k < chosen {
                        assert(bst@[k as int] != DOLLAR);
                    }
                };
                Ok((begin, k as u16))
            } else {
                assert(!exists|j: int| is_first_dollar(bst@, begin as int, limit, j));
                Err(EmuError::TerminatorNotFound)
            }
        },
        Err(_) => {
            assert(!exists|j: int| is_first_dollar(bst@, begin as int, limit, j)) by {
                if exists|j: int| is_first_dollar(bst@, begin as int, limit, j) {
                    let j = choose|j: int| is_first_dollar(bst@, begin as int, limit, j);
                    assert(begin <= j < bst@.len() && bst@[j] == DOLLAR);
                }
            };
            Err(EmuError::TerminatorNotFound)
        },
    }
}

/// The instruction of `int vector`.
pub fn decode_int(vector: u8, cpu: &Cpu, bst: &ByteStream) -> (r: Result<Instr, EmuError>)
    ensures
        r == int_spec(vector, cpu@, bst@),
{
    if vector == 0x21 && cpu.get_reg8(Reg8::Ah) == 9 {
        match find_print_range(cpu, bst) {
            Ok((begin, end)) => Ok(Instr::PrintString { begin, end }),
            Err(e) => Err(e),
        }
    } else {
        Ok(Instr::Int { vector })
    }
}

/// The handler of `int imm8` (opcode 0xCD) with the DOS services registered:
/// vector 0x21 with AH = 9 is "print string", every other vector disassembles
/// as a plain interrupt call with no effect.
///
/// "Print string" disassembles with a comment that transcribes the string
/// (line breaks escaped); executed, it reports the byte range for the console.
pub fn dos_op_cd(execute: bool, cpu: &mut Cpu, bst: &mut ByteStream) -> (r: Result<(String, InteruptChange), EmuError>)
    ensures
        match handler_spec(0xCD, execute, old(cpu)@, old(bst)@, old(bst).cursor() as int) {
            Ok(o) => r is Ok && r->Ok_0.0@ == o.text && r->Ok_0.1 == o.effect
                && holds(final(cpu)@, final(bst)@, final(bst).cursor() as int, o.machine),
            Err(e) => r == Err::<(String, InteruptChange), EmuError>(e),
        },
        r is Err && fails_cleanly(0xCD, old(cpu)@, old(bst)@, old(bst).cursor() as int) ==> final(cpu)@ == old(cpu)@
            && final(bst)@ == old(bst)@ && final(bst).cursor() == old(bst).cursor(),
{
    run_opcode(0xCD, execute, cpu, bst)
}

} // verus!
