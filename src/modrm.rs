use vstd::prelude::*;
use crate::byte_stream::{fits, word_at, ByteStream};
use crate::cpu::{reg16_name, reg16_of, reg16_text, reg16_from_index, Cpu, CpuState, Reg16, SegReg};
use crate::error::EmuError;
use crate::text::{hex_text, push_hex, push_signed_hex, signed16, signed_hex_text};

verus! {

/// The fields of a decoded ModRM byte and its displacement.
///
/// `disp` holds the displacement as a 16-bit two's-complement value (a byte
/// displacement sign-extended), or the direct address for `mode == 0, rm == 6`;
/// it is zero where the addressing class has none.
#[derive(Debug, Clone, Copy, PartialEq, Eq, Structural)]
pub struct ModRm {
    pub mode: u8,
    pub reg: u8,
    pub rm: u8,
    pub disp: u16,
}

/// How many displacement bytes follow a ModRM byte.
pub open spec fn disp_len(byte: u8) -> int {
    let mode = byte / 64;
    if mode == 0 && byte % 8 == 6 {
        2
    } else if mode == 1 {
        1
    } else if mode == 2 {
        2
    } else {
        0
    }
}

/// A byte read as a two's-complement signed value.
pub open spec fn signed8(b: u8) -> int {
    if b < 0x80 {
        b as int
    } else {
        b as int - 0x100
    }
}

/// A byte sign-extended to 16 bits.
pub open spec fn sign_extend(b: u8) -> u16 {
    if b < 0x80 {
        b as u16
    } else {
        (b as int + 0xFF00) as u16
    }
}

/// The ModRM byte at `at` and its displacement, and the position after them.
pub open spec fn modrm_spec(b: Seq<u8>, at: int) -> Result<(ModRm, int), EmuError> {
    if !fits(b.len() as int, at, 1) || !fits(b.len() as int, at + 1, disp_len(b[at])) {
        Err(EmuError::BufferUnderrun)
    } else {
        let byte = b[at];
        let n = disp_len(byte);
        let disp: u16 = if n == 2 {
            word_at(b, at + 1)
        } else if n == 1 {
            sign_extend(b[at + 1])
        } else {
            0
        };
        Ok((ModRm { mode: byte / 64, reg: (byte / 8) % 8, rm: byte % 8, disp }, at + 1 + n))
    }
}

/// Whether the operand is a register rather than memory.
pub open spec fn is_register_operand(m: ModRm) -> bool {
    m.mode == 3
}

/// Whether the operand is the direct address in `disp`.
pub open spec fn is_direct(m: ModRm) -> bool {
    m.mode == 0 && m.rm == 6
}

/// The base/index sum that `rm` selects (BP for `rm == 6`), modulo 2^16.
pub open spec fn base_sum(rm: u8, c: CpuState) -> u16 {
    let bx = c.reg16(Reg16::Bx) as int;
    let v: int = if rm == 0 {
        bx + c.si
    } else if rm == 1 {
        bx + c.di
    } else if rm == 2 {
        c.bp + c.si
    } else if rm == 3 {
        c.bp + c.di
    } else if rm == 4 {
        c.si as int
    } else if rm == 5 {
        c.di as int
    } else if rm == 6 {
        c.bp as int
    } else {
        bx
    };
    (v % 65536) as u16
}

/// The offset of a memory operand: the direct address, or the base/index sum
/// plus the displacement, modulo 2^16.
pub open spec fn ea_offset(m: ModRm, c: CpuState) -> u16 {
    if is_direct(m) {
        m.disp
    } else if m.mode == 0 {
        base_sum(m.rm, c)
    } else {
        ((base_sum(m.rm, c) + m.disp) % 65536) as u16
    }
}

/// The default segment of a memory operand: SS where the base involves BP, DS otherwise.
pub open spec fn ea_segment(m: ModRm) -> SegReg {
    if m.rm == 2 || m.rm == 3 || (m.rm == 6 && m.mode != 0) {
        SegReg::Ss
    } else {
        SegReg::Ds
    }
}

/// The real-mode linear address `segment * 16 + offset`, truncated to 20 bits.
pub open spec fn linear(seg: u16, off: u16) -> int {
    (seg * 16 + off) % 0x100000
}

/// The linear address of a memory operand.
pub open spec fn ea_linear(m: ModRm, c: CpuState) -> int {
    linear(c.seg(ea_segment(m)), ea_offset(m, c))
}

/// The assembler text of a base/index combination.
pub open spec fn rm_text(rm: u8) -> Seq<char> {
    if rm == 0 {
        "bx+si"@
    } else if rm == 1 {
        "bx+di"@
    } else if rm == 2 {
        "bp+si"@
    } else if rm == 3 {
        "bp+di"@
    } else if rm == 4 {
        "si"@
    } else if rm == 5 {
        "di"@
    } else if rm == 6 {
        "bp"@
    } else {
        "bx"@
    }
}

/// The assembler text of a 16-bit ModRM operand.
pub open spec fn operand_text(m: ModRm) -> Seq<char> {
    if is_register_operand(m) {
        reg16_text(reg16_of(m.rm))
    } else if is_direct(m) {
        "[0x"@ + hex_text(m.disp as nat) + "]"@
    } else if m.mode == 0 {
        "["@ + rm_text(m.rm) + "]"@
    } else {
        "["@ + rm_text(m.rm) + signed_hex_text(signed16(m.disp)) + "]"@
    }
}

/// Decodes the ModRM byte at `at` and the displacement after it; returns the
/// fields and the position after them.
pub fn decode_modrm(bst: &ByteStream, at: usize) -> (r: Result<(ModRm, usize), EmuError>)
    ensures
        r is Ok <==> modrm_spec(bst@, at as int) is Ok,
        r is Ok ==> r->Ok_0.0 == modrm_spec(bst@, at as int)->Ok_0.0 && r->Ok_0.1 == modrm_spec(bst@, at as int)->Ok_0.1,
        r is Err ==> r == Err::<(ModRm, usize), EmuError>(modrm_spec(bst@, at as int)->Err_0),
{
    let len = bst.len();
    let byte = match bst.read_byte_at(at) {
        Ok(b) => b,
        Err(e) => return Err(e),
    };
    let mode = byte / 64;
    let reg = (byte / 8) % 8;
    let rm = byte % 8;
    if (mode == 0 && rm == 6) || mode == 2 {
        if len - at < 3 {
            return Err(EmuError::BufferUnderrun);
        }
        match bst.read_word_at(at + 1) {
            Ok(w) => Ok((ModRm { mode, reg, rm, disp: w }, at + 3)),
            Err(e) => Err(e),
        }
    } else if mode == 1 {
        if len - at < 2 {
            return Err(EmuError::BufferUnderrun);
        }
        match bst.read_byte_at(at + 1) {
            Ok(d) => {
                let disp: u16 = if d < 0x80 {
                    d as u16
                } else {
                    d as u16 + 0xFF00
                };
                Ok((ModRm { mode, reg, rm, disp }, at + 2))
            },
            Err(e) => Err(e),
        }
    } else {
        Ok((ModRm { mode, reg, rm, disp: 0 }, at + 1))
    }
}

/// The base/index sum that `rm` selects, from the registers of `cpu`.
pub fn base_value(cpu: &Cpu, rm: u8) -> (v: u16)
    ensures
        v == base_sum(rm, cpu@),
{
    let bx = cpu.get_reg(Reg16::Bx) as u32;
    let bp = cpu.get_reg(Reg16::Bp) as u32;
    let si = cpu.get_reg(Reg16::Si) as u32;
    let di = cpu.get_reg(Reg16::Di) as u32;
    let v: u32 = if rm == 0 {
        bx + si
    } else if rm == 1 {
        bx + di
    } else if rm == 2 {
        bp + si
    } else if rm == 3 {
        bp + di
    } else if rm == 4 {
        si
    } else if rm == 5 {
        di
    } else if rm == 6 {
        bp
    } else {
        bx
    };
    (v % 65536) as u16
}

/// The offset of a memory operand.
pub fn effective_offset(cpu: &Cpu, m: ModRm) -> (v: u16)
    ensures
        v == ea_offset(m, cpu@),
{
    if m.mode == 0 && m.rm == 6 {
        m.disp
    } else if m.mode == 0 {
        base_value(cpu, m.rm)
    } else {
        ((base_value(cpu, m.rm) as u32 + m.disp as u32) % 65536) as u16
    }
}

/// The default segment of a memory operand.
pub fn effective_segment(m: ModRm) -> (s: SegReg)
    ensures
        s == ea_segment(m),
{
    if m.rm == 2 || m.rm == 3 || (m.rm == 6 && m.mode != 0) {
        SegReg::Ss
    } else {
        SegReg::Ds
    }
}

/// `segment * 16 + offset`, truncated to 20 bits.
pub fn linear_address(seg: u16, off: u16) -> (a: usize)
    ensures
        a == linear(seg, off),
{
    ((seg as u32 * 16 + off as u32) % 0x100000) as usize
}

/// The linear address of a memory operand.
pub fn effective_linear(cpu: &Cpu, m: ModRm) -> (a: usize)
    ensures
        a == ea_linear(m, cpu@),
{
    linear_address(cpu.get_seg(effective_segment(m)), effective_offset(cpu, m))
}

fn rm_name(rm: u8) -> (s: &'static str)
    ensures
        s@ == rm_text(rm),
{
    if rm == 0 {
        "bx+si"
    } else if rm == 1 {
        "bx+di"
    } else if rm == 2 {
        "bp+si"
    } else if rm == 3 {
        "bp+di"
    } else if rm == 4 {
        "si"
    } else if rm == 5 {
        "di"
    } else if rm == 6 {
        "bp"
    } else {
        "bx"
    }
}

/// Appends the assembler text of a 16-bit ModRM operand to `s`.
pub fn push_operand(s: &mut String, m: ModRm)
    ensures
        final(s)@ == old(s)@ + operand_text(m),
{
    if m.mode == 3 {
        s.append(reg16_name(reg16_from_index(m.rm)));
    } else if m.mode == 0 && m.rm == 6 {
        s.append("[0x");
        push_hex(s, m.disp as u32);
        s.append("]");
    } else if m.mode == 0 {
        s.append("[");
        s.append(rm_name(m.rm));
        s.append("]");
    } else {
        s.append("[");
        s.append(rm_name(m.rm));
        push_signed_hex(s, m.disp);
        s.append("]");
    }
    assert(final(s)@ =~= old(s)@ + operand_text(m));
}

/// A direct address (`mode == 0, rm == 6`) is the word after the ModRM byte,
/// whatever the registers hold, in DS; `mode == 1` and `mode == 2` add a signed
/// byte or word displacement to the base/index sum, in SS exactly when the base
/// involves BP.
pub proof fn lemma_modrm_addressing(b: Seq<u8>, at: int, c: CpuState)
    requires
        modrm_spec(b, at) is Ok,
    ensures
        ({
            let (m, next) = modrm_spec(b, at)->Ok_0;
            &&& is_direct(m) ==> next == at + 3 && ea_offset(m, c) == word_at(b, at + 1) && ea_segment(m) == SegReg::Ds
            &&& (m.mode == 1 || m.mode == 2) ==> (ea_segment(m) == SegReg::Ss <==> (m.rm == 2 || m.rm == 3 || m.rm == 6))
            &&& m.mode == 1 ==> next == at + 2 && ea_offset(m, c) as int
                == (base_sum(m.rm, c) + signed8(b[at + 1])) % 65536
            &&& m.mode == 2 ==> next == at + 3 && ea_offset(m, c) as int
                == (base_sum(m.rm, c) + signed16(word_at(b, at + 1))) % 65536
        }),
{
    let (m, next) = modrm_spec(b, at)->Ok_0;
    let base = base_sum(m.rm, c) as int;
    if m.mode == 1 {
        let d = b[at + 1];
        assert((base + sign_extend(d) as int) % 65536 == (base + signed8(d)) % 65536);
    }
    if m.mode == 2 {
        let w = word_at(b, at + 1);
        assert((base + w as int) % 65536 == (base + signed16(w)) % 65536);
    }
}

} // verus!
