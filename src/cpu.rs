use vstd::prelude::*;
use crate::byte_stream::{combine_word, le_word};
use crate::error::EmuError;

verus! {

/// The general 16-bit registers, in the order of the 3-bit register fields.
#[derive(Debug, Clone, Copy, PartialEq, Eq, Structural)]
pub enum Reg16 {
    Ax,
    Cx,
    Dx,
    Bx,
    Sp,
    Bp,
    Si,
    Di,
}

/// The 8-bit register halves, in the order of the 3-bit register fields.
#[derive(Debug, Clone, Copy, PartialEq, Eq, Structural)]
pub enum Reg8 {
    Al,
    Cl,
    Dl,
    Bl,
    Ah,
    Ch,
    Dh,
    Bh,
}

/// The segment registers, in the order of the 3-bit register fields.
#[derive(Debug, Clone, Copy, PartialEq, Eq, Structural)]
pub enum SegReg {
    Es,
    Cs,
    Ss,
    Ds,
}

/// The general register that a 3-bit field selects.
pub open spec fn reg16_of(i: u8) -> Reg16 {
    if i % 8 == 0 {
        Reg16::Ax
    } else if i % 8 == 1 {
        Reg16::Cx
    } else if i % 8 == 2 {
        Reg16::Dx
    } else if i % 8 == 3 {
        Reg16::Bx
    } else if i % 8 == 4 {
        Reg16::Sp
    } else if i % 8 == 5 {
        Reg16::Bp
    } else if i % 8 == 6 {
        Reg16::Si
    } else {
        Reg16::Di
    }
}

/// The 8-bit register that a 3-bit field selects.
pub open spec fn reg8_of(i: u8) -> Reg8 {
    if i % 8 == 0 {
        Reg8::Al
    } else if i % 8 == 1 {
        Reg8::Cl
    } else if i % 8 == 2 {
        Reg8::Dl
    } else if i % 8 == 3 {
        Reg8::Bl
    } else if i % 8 == 4 {
        Reg8::Ah
    } else if i % 8 == 5 {
        Reg8::Ch
    } else if i % 8 == 6 {
        Reg8::Dh
    } else {
        Reg8::Bh
    }
}

/// The segment register that a 3-bit field selects, if any.
pub open spec fn seg_of(i: u8) -> Option<SegReg> {
    if i == 0 {
        Some(SegReg::Es)
    } else if i == 1 {
        Some(SegReg::Cs)
    } else if i == 2 {
        Some(SegReg::Ss)
    } else if i == 3 {
        Some(SegReg::Ds)
    } else {
        None
    }
}

/// The assembler name of a general register.
pub open spec fn reg16_text(r: Reg16) -> Seq<char> {
    match r {
        Reg16::Ax => "ax"@,
        Reg16::Cx => "cx"@,
        Reg16::Dx => "dx"@,
        Reg16::Bx => "bx"@,
        Reg16::Sp => "sp"@,
        Reg16::Bp => "bp"@,
        Reg16::Si => "si"@,
        Reg16::Di => "di"@,
    }
}

/// The assembler name of an 8-bit register.
pub open spec fn reg8_text(r: Reg8) -> Seq<char> {
    match r {
        Reg8::Al => "al"@,
        Reg8::Cl => "cl"@,
        Reg8::Dl => "dl"@,
        Reg8::Bl => "bl"@,
        Reg8::Ah => "ah"@,
        Reg8::Ch => "ch"@,
        Reg8::Dh => "dh"@,
        Reg8::Bh => "bh"@,
    }
}

/// The assembler name of a segment register.
pub open spec fn seg_text(s: SegReg) -> Seq<char> {
    match s {
        SegReg::Es => "es"@,
        SegReg::Cs => "cs"@,
        SegReg::Ss => "ss"@,
        SegReg::Ds => "ds"@,
    }
}

/// The general register selected by the low three bits of `i`.
pub fn reg16_from_index(i: u8) -> (r: Reg16)
    ensures
        r == reg16_of(i),
{
    match i % 8 {
        0 => Reg16::Ax,
        1 => Reg16::Cx,
        2 => Reg16::Dx,
        3 => Reg16::Bx,
        4 => Reg16::Sp,
        5 => Reg16::Bp,
        6 => Reg16::Si,
        _ => Reg16::Di,
    }
}

/// The 8-bit register selected by the low three bits of `i`.
pub fn reg8_from_index(i: u8) -> (r: Reg8)
    ensures
        r == reg8_of(i),
{
    match i % 8 {
        0 => Reg8::Al,
        1 => Reg8::Cl,
        2 => Reg8::Dl,
        3 => Reg8::Bl,
        4 => Reg8::Ah,
        5 => Reg8::Ch,
        6 => Reg8::Dh,
        _ => Reg8::Bh,
    }
}

/// The segment register selected by `i`; only 0 to 3 name one.
pub fn seg_from_index(i: u8) -> (r: Result<SegReg, EmuError>)
    ensures
        seg_of(i) is Some ==> r == Ok::<SegReg, EmuError>(seg_of(i)->Some_0),
        seg_of(i) is None ==> r == Err::<SegReg, EmuError>(EmuError::UnknownRegister),
{
    match i {
        0 => Ok(SegReg::Es),
        1 => Ok(SegReg::Cs),
        2 => Ok(SegReg::Ss),
        3 => Ok(SegReg::Ds),
        _ => Err(EmuError::UnknownRegister),
    }
}

/// The assembler name of a general register.
pub fn reg16_name(r: Reg16) -> (s: &'static str)
    ensures
        s@ == reg16_text(r),
{
    match r {
        Reg16::Ax => "ax",
        Reg16::Cx => "cx",
        Reg16::Dx => "dx",
        Reg16::Bx => "bx",
        Reg16::Sp => "sp",
        Reg16::Bp => "bp",
        Reg16::Si => "si",
        Reg16::Di => "di",
    }
}

/// The assembler name of an 8-bit register.
pub fn reg8_name(r: Reg8) -> (s: &'static str)
    ensures
        s@ == reg8_text(r),
{
    match r {
        Reg8::Al => "al",
        Reg8::Cl => "cl",
        Reg8::Dl => "dl",
        Reg8::Bl => "bl",
        Reg8::Ah => "ah",
        Reg8::Ch => "ch",
        Reg8::Dh => "dh",
        Reg8::Bh => "bh",
    }
}

/// The assembler name of a segment register.
pub fn seg_name(s: SegReg) -> (t: &'static str)
    ensures
        t@ == seg_text(s),
{
    match s {
        SegReg::Es => "es",
        SegReg::Cs => "cs",
        SegReg::Ss => "ss",
        SegReg::Ds => "ds",
    }
}

/// The status and control flags.
#[derive(Debug, Clone, Copy, PartialEq, Eq, Structural)]
pub struct Flags {
    pub cf: bool,
    pub pf: bool,
    pub af: bool,
    pub zf: bool,
    pub sf: bool,
    pub tf: bool,
    pub intf: bool,
    pub df: bool,
    pub of: bool,
    /// Low bit of the I/O privilege level (bit 12).
    pub iopl_lo: bool,
    /// High bit of the I/O privilege level (bit 13).
    pub iopl_hi: bool,
    pub nt: bool,
}

/// The bits of FLAGS that carry a flag; the others are reserved.
pub const DEFINED_FLAGS: u16 = 0x7FD5;

/// The flags packed into the FLAGS word.
pub open spec fn pack_flags(f: Flags) -> u16 {
    (if f.cf { 0x1u16 } else { 0u16 }) | (if f.pf { 0x4u16 } else { 0u16 }) | (if f.af { 0x10u16 } else { 0u16 })
        | (if f.zf { 0x40u16 } else { 0u16 }) | (if f.sf { 0x80u16 } else { 0u16 }) | (if f.tf { 0x100u16 } else { 0u16 })
        | (if f.intf { 0x200u16 } else { 0u16 }) | (if f.df { 0x400u16 } else { 0u16 }) | (if f.of { 0x800u16 } else { 0u16 })
        | (if f.iopl_lo { 0x1000u16 } else { 0u16 }) | (if f.iopl_hi { 0x2000u16 } else { 0u16 })
        | (if f.nt { 0x4000u16 } else { 0u16 })
}

/// The flags that the FLAGS word `v` holds; reserved bits are ignored.
pub open spec fn unpack_flags(v: u16) -> Flags {
    Flags {
        cf: v & 0x1 != 0,
        pf: v & 0x4 != 0,
        af: v & 0x10 != 0,
        zf: v & 0x40 != 0,
        sf: v & 0x80 != 0,
        tf: v & 0x100 != 0,
        intf: v & 0x200 != 0,
        df: v & 0x400 != 0,
        of: v & 0x800 != 0,
        iopl_lo: v & 0x1000 != 0,
        iopl_hi: v & 0x2000 != 0,
        nt: v & 0x4000 != 0,
    }
}

/// All flags clear.
pub open spec fn clear_flags() -> Flags {
    unpack_flags(0)
}

/// Packs flags into the FLAGS word.
pub fn flags_to_word(f: Flags) -> (r: u16)
    ensures
        r == pack_flags(f),
{
    (if f.cf { 0x1u16 } else { 0u16 }) | (if f.pf { 0x4u16 } else { 0u16 }) | (if f.af { 0x10u16 } else { 0u16 })
        | (if f.zf { 0x40u16 } else { 0u16 }) | (if f.sf { 0x80u16 } else { 0u16 }) | (if f.tf { 0x100u16 } else { 0u16 })
        | (if f.intf { 0x200u16 } else { 0u16 }) | (if f.df { 0x400u16 } else { 0u16 }) | (if f.of { 0x800u16 } else { 0u16 })
        | (if f.iopl_lo { 0x1000u16 } else { 0u16 }) | (if f.iopl_hi { 0x2000u16 } else { 0u16 })
        | (if f.nt { 0x4000u16 } else { 0u16 })
}

/// Unpacks the FLAGS word.
pub fn word_to_flags(v: u16) -> (f: Flags)
    ensures
        f == unpack_flags(v),
{
    Flags {
        cf: v & 0x1 != 0,
        pf: v & 0x4 != 0,
        af: v & 0x10 != 0,
        zf: v & 0x40 != 0,
        sf: v & 0x80 != 0,
        tf: v & 0x100 != 0,
        intf: v & 0x200 != 0,
        df: v & 0x400 != 0,
        of: v & 0x800 != 0,
        iopl_lo: v & 0x1000 != 0,
        iopl_hi: v & 0x2000 != 0,
        nt: v & 0x4000 != 0,
    }
}

/// Packing a FLAGS word whose reserved bits are clear after unpacking it gives
/// the same word back; and unpacking after packing gives the same flags back.
pub proof fn lemma_flags_round_trip(v: u16, f: Flags)
    requires
        v & !DEFINED_FLAGS == 0,
    ensures
        pack_flags(unpack_flags(v)) == v,
        unpack_flags(pack_flags(f)) == f,
        pack_flags(f) & !DEFINED_FLAGS == 0,
{
    assert(v & !0x7FD5u16 == 0 ==> ((if v & 0x1 != 0 { 0x1u16 } else { 0u16 }) | (if v & 0x4 != 0 { 0x4u16 } else { 0u16 })
        | (if v & 0x10 != 0 { 0x10u16 } else { 0u16 }) | (if v & 0x40 != 0 { 0x40u16 } else { 0u16 })
        | (if v & 0x80 != 0 { 0x80u16 } else { 0u16 }) | (if v & 0x100 != 0 { 0x100u16 } else { 0u16 })
        | (if v & 0x200 != 0 { 0x200u16 } else { 0u16 }) | (if v & 0x400 != 0 { 0x400u16 } else { 0u16 })
        | (if v & 0x800 != 0 { 0x800u16 } else { 0u16 }) | (if v & 0x1000 != 0 { 0x1000u16 } else { 0u16 })
        | (if v & 0x2000 != 0 { 0x2000u16 } else { 0u16 }) | (if v & 0x4000 != 0 { 0x4000u16 } else { 0u16 })) == v)
        by (bit_vector);
    let w = pack_flags(f);
    let (a, b, c, d, e, g, h, i, j, k, l, m) = (f.cf, f.pf, f.af, f.zf, f.sf, f.tf, f.intf, f.df, f.of, f.iopl_lo, f.iopl_hi, f.nt);
    assert({
        let w = (if a { 0x1u16 } else { 0u16 }) | (if b { 0x4u16 } else { 0u16 }) | (if c { 0x10u16 } else { 0u16 })
            | (if d { 0x40u16 } else { 0u16 }) | (if e { 0x80u16 } else { 0u16 }) | (if g { 0x100u16 } else { 0u16 })
            | (if h { 0x200u16 } else { 0u16 }) | (if i { 0x400u16 } else { 0u16 }) | (if j { 0x800u16 } else { 0u16 })
            | (if k { 0x1000u16 } else { 0u16 }) | (if l { 0x2000u16 } else { 0u16 }) | (if m { 0x4000u16 } else { 0u16 });
        &&& (w & 0x1 != 0) == a
        &&& (w & 0x4 != 0) == b
        &&& (w & 0x10 != 0) == c
        &&& (w & 0x40 != 0) == d
        &&& (w & 0x80 != 0) == e
        &&& (w & 0x100 != 0) == g
        &&& (w & 0x200 != 0) == h
        &&& (w & 0x400 != 0) == i
        &&& (w & 0x800 != 0) == j
        &&& (w & 0x1000 != 0) == k
        &&& (w & 0x2000 != 0) == l
        &&& (w & 0x4000 != 0) == m
        &&& w & !0x7FD5u16 == 0
    }) by (bit_vector);
}

/// The abstract state of a CPU context: every register, the flags and the
/// stack, bottom first.
///
/// The general registers AX to DX exist only as their two halves, so a word
/// and its halves can never disagree. The stack is a list of its own, apart
/// from the image: pushes and pops leave SP and SS alone. During a run the
/// image cursor plays the part of the instruction pointer.
pub struct CpuState {
    pub ah: u8,
    pub al: u8,
    pub bh: u8,
    pub bl: u8,
    pub ch: u8,
    pub cl: u8,
    pub dh: u8,
    pub dl: u8,
    pub sp: u16,
    pub bp: u16,
    pub si: u16,
    pub di: u16,
    pub cs: u16,
    pub ds: u16,
    pub ss: u16,
    pub es: u16,
    pub ip: u16,
    pub flags: Flags,
    pub stack: Seq<u16>,
}

/// The high byte of a word.
pub open spec fn hi_byte(v: u16) -> u8 {
    (v / 256) as u8
}

/// The low byte of a word.
pub open spec fn lo_byte(v: u16) -> u8 {
    (v % 256) as u8
}

/// The register whose halves an 8-bit register is one of.
pub open spec fn word_of(r: Reg8) -> Reg16 {
    match r {
        Reg8::Al | Reg8::Ah => Reg16::Ax,
        Reg8::Cl | Reg8::Ch => Reg16::Cx,
        Reg8::Dl | Reg8::Dh => Reg16::Dx,
        Reg8::Bl | Reg8::Bh => Reg16::Bx,
    }
}

/// Whether an 8-bit register is the high half of its word.
pub open spec fn is_high(r: Reg8) -> bool {
    match r {
        Reg8::Ah | Reg8::Ch | Reg8::Dh | Reg8::Bh => true,
        _ => false,
    }
}

/// The other half of the same word.
pub open spec fn other_half(r: Reg8) -> Reg8 {
    match r {
        Reg8::Al => Reg8::Ah,
        Reg8::Ah => Reg8::Al,
        Reg8::Cl => Reg8::Ch,
        Reg8::Ch => Reg8::Cl,
        Reg8::Dl => Reg8::Dh,
        Reg8::Dh => Reg8::Dl,
        Reg8::Bl => Reg8::Bh,
        Reg8::Bh => Reg8::Bl,
    }
}

/// The high half of AX, CX, DX or BX.
pub open spec fn high_half(r: Reg16) -> Reg8 {
    match r {
        Reg16::Ax => Reg8::Ah,
        Reg16::Cx => Reg8::Ch,
        Reg16::Dx => Reg8::Dh,
        _ => Reg8::Bh,
    }
}

/// The low half of AX, CX, DX or BX.
pub open spec fn low_half(r: Reg16) -> Reg8 {
    match r {
        Reg16::Ax => Reg8::Al,
        Reg16::Cx => Reg8::Cl,
        Reg16::Dx => Reg8::Dl,
        _ => Reg8::Bl,
    }
}

/// AX, CX, DX and BX are the registers with 8-bit halves.
pub open spec fn has_halves(r: Reg16) -> bool {
    match r {
        Reg16::Ax | Reg16::Cx | Reg16::Dx | Reg16::Bx => true,
        _ => false,
    }
}

impl CpuState {
    /// The value of an 8-bit register.
    pub open spec fn reg8(self, r: Reg8) -> u8 {
        match r {
            Reg8::Al => self.al,
            Reg8::Cl => self.cl,
            Reg8::Dl => self.dl,
            Reg8::Bl => self.bl,
            Reg8::Ah => self.ah,
            Reg8::Ch => self.ch,
            Reg8::Dh => self.dh,
            Reg8::Bh => self.bh,
        }
    }

    /// The value of a general register.
    pub open spec fn reg16(self, r: Reg16) -> u16 {
        match r {
            Reg16::Ax => le_word(self.al, self.ah),
            Reg16::Cx => le_word(self.cl, self.ch),
            Reg16::Dx => le_word(self.dl, self.dh),
            Reg16::Bx => le_word(self.bl, self.bh),
            Reg16::Sp => self.sp,
            Reg16::Bp => self.bp,
            Reg16::Si => self.si,
            Reg16::Di => self.di,
        }
    }

    /// The value of a segment register.
    pub open spec fn seg(self, s: SegReg) -> u16 {
        match s {
            SegReg::Es => self.es,
            SegReg::Cs => self.cs,
            SegReg::Ss => self.ss,
            SegReg::Ds => self.ds,
        }
    }

    /// The state with an 8-bit register set to `b`.
    pub open spec fn with_reg8(self, r: Reg8, b: u8) -> CpuState {
        match r {
            Reg8::Al => CpuState { al: b, ..self },
            Reg8::Cl => CpuState { cl: b, ..self },
            Reg8::Dl => CpuState { dl: b, ..self },
            Reg8::Bl => CpuState { bl: b, ..self },
            Reg8::Ah => CpuState { ah: b, ..self },
            Reg8::Ch => CpuState { ch: b, ..self },
            Reg8::Dh => CpuState { dh: b, ..self },
            Reg8::Bh => CpuState { bh: b, ..self },
        }
    }

    /// The state with a general register set to `v`.
    pub open spec fn with_reg16(self, r: Reg16, v: u16) -> CpuState {
        match r {
            Reg16::Ax => CpuState { ah: hi_byte(v), al: lo_byte(v), ..self },
            Reg16::Cx => CpuState { ch: hi_byte(v), cl: lo_byte(v), ..self },
            Reg16::Dx => CpuState { dh: hi_byte(v), dl: lo_byte(v), ..self },
            Reg16::Bx => CpuState { bh: hi_byte(v), bl: lo_byte(v), ..self },
            Reg16::Sp => CpuState { sp: v, ..self },
            Reg16::Bp => CpuState { bp: v, ..self },
            Reg16::Si => CpuState { si: v, ..self },
            Reg16::Di => CpuState { di: v, ..self },
        }
    }

    /// The state with a segment register set to `v`.
    pub open spec fn with_seg(self, s: SegReg, v: u16) -> CpuState {
        match s {
            SegReg::Es => CpuState { es: v, ..self },
            SegReg::Cs => CpuState { cs: v, ..self },
            SegReg::Ss => CpuState { ss: v, ..self },
            SegReg::Ds => CpuState { ds: v, ..self },
        }
    }

    /// The state with other flags.
    pub open spec fn with_flags(self, f: Flags) -> CpuState {
        CpuState { flags: f, ..self }
    }

    /// The state with `v` pushed on the stack.
    pub open spec fn pushed(self, v: u16) -> CpuState {
        CpuState { stack: self.stack.push(v), ..self }
    }

    /// The top of the stack and the state without it, or `StackUnderflow`.
    pub open spec fn popped(self) -> Result<(u16, CpuState), EmuError> {
        if self.stack.len() == 0 {
            Err(EmuError::StackUnderflow)
        } else {
            Ok((self.stack.last(), CpuState { stack: self.stack.drop_last(), ..self }))
        }
    }
}

/// The state of a freshly made context: every register, flag and the stack empty.
pub open spec fn zeroed_state() -> CpuState {
    CpuState {
        ah: 0,
        al: 0,
        bh: 0,
        bl: 0,
        ch: 0,
        cl: 0,
        dh: 0,
        dl: 0,
        sp: 0,
        bp: 0,
        si: 0,
        di: 0,
        cs: 0,
        ds: 0,
        ss: 0,
        es: 0,
        ip: 0,
        flags: clear_flags(),
        stack: Seq::empty(),
    }
}

/// Writing a word register and reading its two halves gives the word back
/// (high half times 256 plus low half), and reading the word gives it back too.
pub proof fn lemma_word_write_halves(s: CpuState, r: Reg16, v: u16)
    ensures
        s.with_reg16(r, v).reg16(r) == v,
        has_halves(r) ==> s.with_reg16(r, v).reg8(high_half(r)) as int * 256 + s.with_reg16(r, v).reg8(low_half(r)) as int == v as int,
{
}

/// Writing one half of a word register leaves the other half alone, and the
/// word then reads as high half times 256 plus low half.
pub proof fn lemma_half_write_word(s: CpuState, r: Reg8, b: u8)
    ensures
        s.with_reg8(r, b).reg8(r) == b,
        s.with_reg8(r, b).reg8(other_half(r)) == s.reg8(other_half(r)),
        is_high(r) ==> s.with_reg8(r, b).reg16(word_of(r)) as int == b as int * 256 + s.reg8(other_half(r)) as int,
        !is_high(r) ==> s.with_reg8(r, b).reg16(word_of(r)) as int == s.reg8(other_half(r)) as int * 256 + b as int,
{
}

/// Pushing a value and popping gives the value and the state from before the push.
pub proof fn lemma_push_pop(s: CpuState, v: u16)
    ensures
        s.pushed(v).popped() == Ok::<(u16, CpuState), EmuError>((v, s)),
        s.pushed(v).stack.len() == s.stack.len() + 1,
{
    assert(s.pushed(v).stack.drop_last() =~= s.stack);
}

/// Popping an empty stack fails with `StackUnderflow`.
pub proof fn lemma_pop_empty(s: CpuState)
    requires
        s.stack.len() == 0,
    ensures
        s.popped() == Err::<(u16, CpuState), EmuError>(EmuError::StackUnderflow),
{
}

/// A CPU context: the registers, the flags and the call/push stack of one run.
///
/// Every read and write goes through the accessors below; the state is owned
/// by the caller, so separate runs never share it.
pub struct Cpu {
    ah: u8,
    al: u8,
    bh: u8,
    bl: u8,
    ch: u8,
    cl: u8,
    dh: u8,
    dl: u8,
    sp: u16,
    bp: u16,
    si: u16,
    di: u16,
    cs: u16,
    ds: u16,
    ss: u16,
    es: u16,
    ip: u16,
    flags: Flags,
    stack: Vec<u16>,
}

impl View for Cpu {
    type V = CpuState;

    closed spec fn view(&self) -> CpuState {
        CpuState {
            ah: self.ah,
            al: self.al,
            bh: self.bh,
            bl: self.bl,
            ch: self.ch,
            cl: self.cl,
            dh: self.dh,
            dl: self.dl,
            sp: self.sp,
            bp: self.bp,
            si: self.si,
            di: self.di,
            cs: self.cs,
            ds: self.ds,
            ss: self.ss,
            es: self.es,
            ip: self.ip,
            flags: self.flags,
            stack: self.stack@,
        }
    }
}

impl Cpu {
    /// A context with every register and flag zero and an empty stack.
    pub fn new() -> (r: Cpu)
        ensures
            r@ == zeroed_state(),
    {
        let r = Cpu {
            ah: 0,
            al: 0,
            bh: 0,
            bl: 0,
            ch: 0,
            cl: 0,
            dh: 0,
            dl: 0,
            sp: 0,
            bp: 0,
            si: 0,
            di: 0,
            cs: 0,
            ds: 0,
            ss: 0,
            es: 0,
            ip: 0,
            flags: word_to_flags(0),
            stack: Vec::new(),
        };
        assert(r@.stack =~= Seq::<u16>::empty());
        r
    }

    /// The value of an 8-bit register.
    pub fn get_reg8(&self, r: Reg8) -> (v: u8)
        ensures
            v == self@.reg8(r),
    {
        match r {
            Reg8::Al => self.al,
            Reg8::Cl => self.cl,
            Reg8::Dl => self.dl,
            Reg8::Bl => self.bl,
            Reg8::Ah => self.ah,
            Reg8::Ch => self.ch,
            Reg8::Dh => self.dh,
            Reg8::Bh => self.bh,
        }
    }

    /// Sets an 8-bit register.
    pub fn set_reg8(&mut self, r: Reg8, b: u8)
        ensures
            final(self)@ == old(self)@.with_reg8(r, b),
    {
        match r {
            Reg8::Al => self.al = b,
            Reg8::Cl => self.cl = b,
            Reg8::Dl => self.dl = b,
            Reg8::Bl => self.bl = b,
            Reg8::Ah => self.ah = b,
            Reg8::Ch => self.ch = b,
            Reg8::Dh => self.dh = b,
            Reg8::Bh => self.bh = b,
        }
    }

    /// The value of a general register.
    pub fn get_reg(&self, r: Reg16) -> (v: u16)
        ensures
            v == self@.reg16(r),
    {
        match r {
            Reg16::Ax => combine_word(self.al, self.ah),
            Reg16::Cx => combine_word(self.cl, self.ch),
            Reg16::Dx => combine_word(self.dl, self.dh),
            Reg16::Bx => combine_word(self.bl, self.bh),
            Reg16::Sp => self.sp,
            Reg16::Bp => self.bp,
            Reg16::Si => self.si,
            Reg16::Di => self.di,
        }
    }

    /// Sets a general register; for AX to DX both halves change together.
    pub fn set_reg(&mut self, r: Reg16, v: u16)
        ensures
            final(self)@ == old(self)@.with_reg16(r, v),
    {
        let hi = (v / 256) as u8;
        let lo = (v % 256) as u8;
        match r {
            Reg16::Ax => self.set_pair(Reg8::Ah, Reg8::Al, hi, lo),
            Reg16::Cx => self.set_pair(Reg8::Ch, Reg8::Cl, hi, lo),
            Reg16::Dx => self.set_pair(Reg8::Dh, Reg8::Dl, hi, lo),
            Reg16::Bx => self.set_pair(Reg8::Bh, Reg8::Bl, hi, lo),
            Reg16::Sp => self.sp = v,
            Reg16::Bp => self.bp = v,
            Reg16::Si => self.si = v,
            Reg16::Di => self.di = v,
        }
    }

    fn set_pair(&mut self, h: Reg8, l: Reg8, hi: u8, lo: u8)
        ensures
            final(self)@ == old(self)@.with_reg8(h, hi).with_reg8(l, lo),
    {
        self.set_reg8(h, hi);
        self.set_reg8(l, lo);
    }

    /// The value of a segment register.
    pub fn get_seg(&self, s: SegReg) -> (v: u16)
        ensures
            v == self@.seg(s),
    {
        match s {
            SegReg::Es => self.es,
            SegReg::Cs => self.cs,
            SegReg::Ss => self.ss,
            SegReg::Ds => self.ds,
        }
    }

    /// Sets a segment register.
    pub fn set_seg(&mut self, s: SegReg, v: u16)
        ensures
            final(self)@ == old(self)@.with_seg(s, v),
    {
        match s {
            SegReg::Es => self.es = v,
            SegReg::Cs => self.cs = v,
            SegReg::Ss => self.ss = v,
            SegReg::Ds => self.ds = v,
        }
    }

    /// The instruction pointer.
    pub fn get_ip(&self) -> (v: u16)
        ensures
            v == self@.ip,
    {
        self.ip
    }

    /// Sets the instruction pointer.
    pub fn set_ip(&mut self, v: u16)
        ensures
            final(self)@ == (CpuState { ip: v, ..old(self)@ }),
    {
        self.ip = v;
    }

    /// The flags.
    pub fn flags(&self) -> (f: Flags)
        ensures
            f == self@.flags,
    {
        self.flags
    }

    /// Replaces the flags.
    pub fn set_flag_bits(&mut self, f: Flags)
        ensures
            final(self)@ == old(self)@.with_flags(f),
    {
        self.flags = f;
    }

    /// Pushes a word on the stack.
    pub fn push(&mut self, v: u16)
        ensures
            final(self)@ == old(self)@.pushed(v),
    {
        self.stack.push(v);
    }

    /// Pops the top of the stack; an empty stack fails with `StackUnderflow`
    /// and stays as it is.
    pub fn pop(&mut self) -> (r: Result<u16, EmuError>)
        ensures
            old(self)@.popped() is Ok ==> r == Ok::<u16, EmuError>(old(self)@.popped()->Ok_0.0)
                && final(self)@ == old(self)@.popped()->Ok_0.1,
            old(self)@.popped() is Err ==> r == Err::<u16, EmuError>(EmuError::StackUnderflow) && final(self)@ == old(self)@,
    {
        match self.stack.pop() {
            Some(v) => Ok(v),
            None => Err(EmuError::StackUnderflow),
        }
    }

    /// The number of words on the stack.
    pub fn stack_depth(&self) -> (n: usize)
        ensures
            n == self@.stack.len(),
    {
        self.stack.len()
    }

    /// The top of the stack, if any, without popping it.
    pub fn stack_top(&self) -> (r: Option<u16>)
        ensures
            self@.stack.len() == 0 ==> r is None,
            self@.stack.len() > 0 ==> r == Some(self@.stack.last()),
    {
        if self.stack.len() == 0 {
            None
        } else {
            Some(self.stack[self.stack.len() - 1])
        }
    }
}

/// AX, as high half times 256 plus low half.
pub fn get_ax(cpu: &Cpu) -> (v: u16)
    ensures
        v == cpu@.reg16(Reg16::Ax),
{
    cpu.get_reg(Reg16::Ax)
}

/// Sets AX, that is AH and AL together.
pub fn set_ax(cpu: &mut Cpu, v: u16)
    ensures
        final(cpu)@ == old(cpu)@.with_reg16(Reg16::Ax, v),
{
    cpu.set_reg(Reg16::Ax, v)
}

/// BX, as high half times 256 plus low half.
pub fn get_bx(cpu: &Cpu) -> (v: u16)
    ensures
        v == cpu@.reg16(Reg16::Bx),
{
    cpu.get_reg(Reg16::Bx)
}

/// Sets BX, that is BH and BL together.
pub fn set_bx(cpu: &mut Cpu, v: u16)
    ensures
        final(cpu)@ == old(cpu)@.with_reg16(Reg16::Bx, v),
{
    cpu.set_reg(Reg16::Bx, v)
}

/// CX, as high half times 256 plus low half.
pub fn get_cx(cpu: &Cpu) -> (v: u16)
    ensures
        v == cpu@.reg16(Reg16::Cx),
{
    cpu.get_reg(Reg16::Cx)
}

/// Sets CX, that is CH and CL together.
pub fn set_cx(cpu: &mut Cpu, v: u16)
    ensures
        final(cpu)@ == old(cpu)@.with_reg16(Reg16::Cx, v),
{
    cpu.set_reg(Reg16::Cx, v)
}

/// DX, as high half times 256 plus low half.
pub fn get_dx(cpu: &Cpu) -> (v: u16)
    ensures
        v == cpu@.reg16(Reg16::Dx),
{
    cpu.get_reg(Reg16::Dx)
}

/// Sets DX, that is DH and DL together.
pub fn set_dx(cpu: &mut Cpu, v: u16)
    ensures
        final(cpu)@ == old(cpu)@.with_reg16(Reg16::Dx, v),
{
    cpu.set_reg(Reg16::Dx, v)
}

/// The FLAGS word packed from the flags.
pub fn get_flags(cpu: &Cpu) -> (v: u16)
    ensures
        v == pack_flags(cpu@.flags),
{
    flags_to_word(cpu.flags())
}

/// Sets every flag from a FLAGS word; reserved bits are ignored.
pub fn set_flags(cpu: &mut Cpu, v: u16)
    ensures
        final(cpu)@ == old(cpu)@.with_flags(unpack_flags(v)),
{
    cpu.set_flag_bits(word_to_flags(v))
}

} // verus!
