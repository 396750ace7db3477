use vstd::prelude::*;
use crate::byte_stream::{fits, ByteStream};
use crate::cpu::{get_cx, set_cx, zeroed_state, Cpu, CpuState};
use crate::decode::{decode_plain, decode_step, instr_string, lemma_decoded_text_ready, step_string};
use crate::dos::dos_op_cd;
use crate::error::EmuError;
use crate::executable::InteruptChange;
use crate::execute::{execute_instr, holds};
use crate::instr::{
    decode_spec, effect_of, emitted, handler_spec, lemma_effect_in_image, lemma_step_advances, lenient_listing, listing,
    repeat_spec, report_spec, run_spec, step_decode_spec, step_report_spec, step_spec, stops, Instr, Machine, Repeat,
    Report, Run, REPEAT_CAP,
};
use crate::text::push_hex;

verus! {

/// Whether a repeat prefix stops after an iteration that left ZF as `zf`.
fn stops_now(rep: Repeat, zf: bool) -> (r: bool)
    ensures
        r == stops(rep, zf),
{
    match rep {
        Repeat::WhileNotEqual => zf,
        Repeat::WhileEqual => !zf,
        Repeat::Once => true,
    }
}

/// The effect an executed instruction reports.
fn effect_for(i: Instr) -> (r: InteruptChange)
    ensures
        r == effect_of(i),
{
    match i {
        Instr::PrintString { begin, end } => InteruptChange::String(begin, end),
        _ => InteruptChange::NoChange,
    }
}

/// Runs the instruction at `at` under a repeat prefix: while CX is not zero it
/// decodes the instruction again, checks that its text is still `text`, runs
/// it, decrements CX and tests ZF; never more than `REPEAT_CAP` times.
pub fn execute_repeat(rep: Repeat, cpu: &mut Cpu, bst: &mut ByteStream, at: usize, text: &String) -> (r: Result<(), EmuError>)
    ensures
        match repeat_spec(
            rep,
            (Machine { cpu: old(cpu)@, mem: old(bst)@, pos: old(bst).cursor() as int }),
            at as int,
            text@,
            REPEAT_CAP as nat,
        ) {
            Ok(m) => r is Ok && holds(final(cpu)@, final(bst)@, final(bst).cursor() as int, m),
            Err(e) => r == Err::<(), EmuError>(e),
        },
{
    let ghost goal = repeat_spec(
        rep,
        Machine { cpu: cpu@, mem: bst@, pos: bst.cursor() as int },
        at as int,
        text@,
        REPEAT_CAP as nat,
    );
    let mut fuel: u32 = REPEAT_CAP;
    loop
        invariant
            goal == repeat_spec(
                rep,
                (Machine { cpu: old(cpu)@, mem: old(bst)@, pos: old(bst).cursor() as int }),
                at as int,
                text@,
                REPEAT_CAP as nat,
            ),
            repeat_spec(rep, (Machine { cpu: cpu@, mem: bst@, pos: bst.cursor() as int }), at as int, text@, fuel as nat)
                == goal,
        decreases fuel,
    {
        if fuel == 0 || get_cx(cpu) == 0 {
            return Ok(());
        }
        let (i, q) = match decode_plain(cpu, bst, at) {
            Ok(d) => d,
            Err(e) => return Err(e),
        };
        proof {
            reveal(decode_spec);
            lemma_decoded_text_ready(cpu@, bst@, bst@[at as int], at + 1);
        }
        let t = instr_string(i, bst);
        if !(t == *text) {
            return Err(EmuError::InconsistentRepeatDecode);
        }
        match execute_instr(i, cpu, bst, q) {
            Ok(()) => {},
            Err(e) => return Err(e),
        }
        let cx = get_cx(cpu);
        set_cx(cpu, ((cx as u32 + 0xFFFF) % 0x10000) as u16);
        if stops_now(rep, cpu.flags().zf) {
            return Ok(());
        }
        fuel = fuel - 1;
    }
}

/// Whether a failure of the handler of `op` leaves everything as it was: it
/// does unless a repeated instruction failed after some iterations had run.
pub open spec fn fails_cleanly(op: u8, c: CpuState, b: Seq<u8>, p: int) -> bool {
    step_decode_spec(op, c, b, p) is Err || step_decode_spec(op, c, b, p)->Ok_0.0.repeat == Repeat::Once
}

/// The executable form of a report: `r` is the report `rep` in which `run`
/// failed or left the context, image and cursor as `c1`, `b1`, `p1` say.
pub open spec fn reported(
    r: (String, usize, Result<InteruptChange, EmuError>),
    rep: Report,
    c1: CpuState,
    b1: Seq<u8>,
    p1: int,
) -> bool {
    &&& r.0@ == rep.text
    &&& r.1 as int == rep.next
    &&& match rep.run {
        Ok((effect, m)) => r.2 == Ok::<InteruptChange, EmuError>(effect) && holds(c1, b1, p1, m),
        Err(e) => r.2 == Err::<InteruptChange, EmuError>(e),
    }
}

/// Decodes what follows opcode `op`, which has just been read (the cursor is
/// at its operand bytes), and runs it when `execute` is set. A decoding
/// failure is the error and changes nothing; otherwise the result holds the
/// text and the position after the instruction, which decoding alone gives,
/// and the outcome of running it.
pub fn report_opcode(op: u8, execute: bool, cpu: &mut Cpu, bst: &mut ByteStream) -> (r: Result<(String, usize, Result<InteruptChange, EmuError>), EmuError>)
    ensures
        match report_spec(op, execute, old(cpu)@, old(bst)@, old(bst).cursor() as int) {
            Ok(rep) => r is Ok && reported(r->Ok_0, rep, final(cpu)@, final(bst)@, final(bst).cursor() as int),
            Err(e) => r == Err::<(String, usize, Result<InteruptChange, EmuError>), EmuError>(e),
        },
        (r is Err || (r->Ok_0.2 is Err && fails_cleanly(op, old(cpu)@, old(bst)@, old(bst).cursor() as int)))
            ==> final(cpu)@ == old(cpu)@ && final(bst)@ == old(bst)@ && final(bst).cursor() == old(bst).cursor(),
{
    let p = bst.pos();
    let (st, next) = match decode_step(op, cpu, bst, p) {
        Ok(d) => d,
        Err(e) => return Err(e),
    };
    proof {
        reveal(decode_spec);
        if op == 0xF2 || op == 0xF3 {
            lemma_decoded_text_ready(cpu@, bst@, bst@[p as int], p + 1);
        } else {
            lemma_decoded_text_ready(cpu@, bst@, op, p as int);
        }
    }
    let text = step_string(st, bst);
    if !execute {
        bst.set_pos(next);
        return Ok((text, next, Ok(InteruptChange::NoChange)));
    }
    match st.repeat {
        Repeat::Once => match execute_instr(st.instr, cpu, bst, next) {
            Ok(()) => Ok((text, next, Ok(effect_for(st.instr)))),
            Err(e) => Ok((text, next, Err(e))),
        },
        _ => {
            let inner = instr_string(st.instr, bst);
            match execute_repeat(st.repeat, cpu, bst, p, &inner) {
                Ok(()) => {
                    bst.set_pos(next);
                    Ok((text, next, Ok(InteruptChange::NoChange)))
                },
                Err(e) => Ok((text, next, Err(e))),
            }
        },
    }
}

/// The handler of opcode `op`, which has just been read; the cursor is at its
/// operand bytes. Decodes the instruction, and runs it when `execute` is set;
/// a failure to decode or to run it is the error.
///
/// The text and the bytes consumed do not depend on `execute`: without it
/// only the cursor moves, past the instruction; with it the CPU context, the
/// image and the cursor become what the instruction makes of them.
pub fn run_opcode(op: u8, execute: bool, cpu: &mut Cpu, bst: &mut ByteStream) -> (r: Result<(String, InteruptChange), EmuError>)
    ensures
        match handler_spec(op, execute, old(cpu)@, old(bst)@, old(bst).cursor() as int) {
            Ok(o) => r is Ok && r->Ok_0.0@ == o.text && r->Ok_0.1 == o.effect
                && holds(final(cpu)@, final(bst)@, final(bst).cursor() as int, o.machine),
            Err(e) => r == Err::<(String, InteruptChange), EmuError>(e),
        },
        r is Err && fails_cleanly(op, old(cpu)@, old(bst)@, old(bst).cursor() as int) ==> final(cpu)@ == old(cpu)@
            && final(bst)@ == old(bst)@ && final(bst).cursor() == old(bst).cursor(),
{
    match report_opcode(op, execute, cpu, bst) {
        Ok((text, _, Ok(effect))) => Ok((text, effect)),
        Ok((_, _, Err(e))) => Err(e),
        Err(e) => Err(e),
    }
}

/// What one instruction did: its text and length, which decoding alone
/// gives, and the outcome of running it.
pub struct StepReport {
    pub text: String,
    pub len: usize,
    pub run: Result<InteruptChange, EmuError>,
}

/// Decodes the instruction under the cursor, and runs it when `execute` is
/// set. A decoding failure is the error and changes nothing. Otherwise the
/// text and the length (opcode included) are those of decoding alone, in
/// either mode; `run` tells how running it went. Without `execute`, or when
/// it ran, the cursor ends where the instruction leaves it; when running a
/// non-repeated instruction failed, nothing changed.
pub fn step_report(execute: bool, cpu: &mut Cpu, bst: &mut ByteStream) -> (r: Result<StepReport, EmuError>)
    ensures
        match step_report_spec(execute, old(cpu)@, old(bst)@, old(bst).cursor() as int) {
            Ok(rep) => r is Ok && ({
                let s = r->Ok_0;
                &&& s.text@ == rep.text
                &&& s.len as int == rep.next - old(bst).cursor()
                &&& match rep.run {
                    Ok((effect, m)) => s.run == Ok::<InteruptChange, EmuError>(effect)
                        && holds(final(cpu)@, final(bst)@, final(bst).cursor() as int, m),
                    Err(e) => s.run == Err::<InteruptChange, EmuError>(e),
                }
            }),
            Err(e) => r is Err && r->Err_0 == e,
        },
        (r is Err || (r->Ok_0.run is Err && fits(old(bst)@.len() as int, old(bst).cursor() as int, 1) && fails_cleanly(
            old(bst)@[old(bst).cursor() as int],
            old(cpu)@,
            old(bst)@,
            old(bst).cursor() + 1,
        ))) ==> final(cpu)@ == old(cpu)@ && final(bst)@ == old(bst)@ && final(bst).cursor() == old(bst).cursor(),
{
    let p = bst.pos();
    let op = match bst.read_byte() {
        Ok(op) => op,
        Err(e) => return Err(e),
    };
    match report_opcode(op, execute, cpu, bst) {
        Ok((text, next, run)) => {
            proof {
                reveal(decode_spec);
            }
            if run.is_err() {
                bst.set_pos(p);
            }
            Ok(StepReport { text, len: next - p, run })
        },
        Err(e) => {
            bst.set_pos(p);
            Err(e)
        },
    }
}

/// The text of a handler's result.
pub open spec fn text_view(r: Result<String, EmuError>) -> Result<Seq<char>, EmuError> {
    match r {
        Ok(s) => Ok(s@),
        Err(e) => Err(e),
    }
}

/// A handler of opcode `op` returned `r` and left the context, image and
/// cursor as `c1`, `b1`, `p1`, as `handler_spec` says it must; a failure
/// changed nothing unless a repeated instruction had already run.
pub open spec fn handled(
    op: u8,
    execute: bool,
    c0: CpuState,
    b0: Seq<u8>,
    p0: int,
    r: Result<Seq<char>, EmuError>,
    c1: CpuState,
    b1: Seq<u8>,
    p1: int,
) -> bool {
    match handler_spec(op, execute, c0, b0, p0) {
        Ok(o) => r == Ok::<Seq<char>, EmuError>(o.text) && holds(c1, b1, p1, o.machine),
        Err(e) => r == Err::<Seq<char>, EmuError>(e) && (fails_cleanly(op, c0, b0, p0) ==> c1 == c0 && b1 == b0
            && p1 == p0),
    }
}

/// The handler of opcode `op`, returning its text.
pub fn handle(op: u8, execute: bool, cpu: &mut Cpu, bst: &mut ByteStream) -> (r: Result<String, EmuError>)
    ensures
        handled(op, execute, old(cpu)@, old(bst)@, old(bst).cursor() as int, text_view(r), final(cpu)@, final(bst)@, final(bst).cursor() as int),
{
    match run_opcode(op, execute, cpu, bst) {
        Ok((text, _)) => Ok(text),
        Err(e) => Err(e),
    }
}

/// `nop`: consumes nothing beyond the opcode and changes nothing.
pub fn op_00() -> (s: String)
    ensures
        s@ == "nop"@,
{
    String::from_str("nop")
}

/// The handler of `push cs` (opcode 0x0E).
pub fn op_0e(execute: bool, cpu: &mut Cpu, bst: &mut ByteStream) -> (r: Result<String, EmuError>)
    ensures
        handled(0x0e, execute, old(cpu)@, old(bst)@, old(bst).cursor() as int, text_view(r), final(cpu)@, final(bst)@, final(bst).cursor() as int),
{
    handle(0x0e, execute, cpu, bst)
}

/// The handler of `pop ds` (opcode 0x1F).
pub fn op_1f(execute: bool, cpu: &mut Cpu, bst: &mut ByteStream) -> (r: Result<String, EmuError>)
    ensures
        handled(0x1f, execute, old(cpu)@, old(bst)@, old(bst).cursor() as int, text_view(r), final(cpu)@, final(bst)@, final(bst).cursor() as int),
{
    handle(0x1f, execute, cpu, bst)
}

/// The handler of `xor reg16, r/m16` (opcode 0x33).
pub fn op_33(execute: bool, cpu: &mut Cpu, bst: &mut ByteStream) -> (r: Result<String, EmuError>)
    ensures
        handled(0x33, execute, old(cpu)@, old(bst)@, old(bst).cursor() as int, text_view(r), final(cpu)@, final(bst)@, final(bst).cursor() as int),
{
    handle(0x33, execute, cpu, bst)
}

/// The handler of `push ax` (opcode 0x50).
pub fn op_50(execute: bool, cpu: &mut Cpu, bst: &mut ByteStream) -> (r: Result<String, EmuError>)
    ensures
        handled(0x50, execute, old(cpu)@, old(bst)@, old(bst).cursor() as int, text_view(r), final(cpu)@, final(bst)@, final(bst).cursor() as int),
{
    handle(0x50, execute, cpu, bst)
}

/// The handler of `push bp` (opcode 0x55).
pub fn op_55(execute: bool, cpu: &mut Cpu, bst: &mut ByteStream) -> (r: Result<String, EmuError>)
    ensures
        handled(0x55, execute, old(cpu)@, old(bst)@, old(bst).cursor() as int, text_view(r), final(cpu)@, final(bst)@, final(bst).cursor() as int),
{
    handle(0x55, execute, cpu, bst)
}

/// The handler of `push si` (opcode 0x56).
pub fn op_56(execute: bool, cpu: &mut Cpu, bst: &mut ByteStream) -> (r: Result<String, EmuError>)
    ensures
        handled(0x56, execute, old(cpu)@, old(bst)@, old(bst).cursor() as int, text_view(r), final(cpu)@, final(bst)@, final(bst).cursor() as int),
{
    handle(0x56, execute, cpu, bst)
}

/// The handler of `pop bp` (opcode 0x5D).
pub fn op_5d(execute: bool, cpu: &mut Cpu, bst: &mut ByteStream) -> (r: Result<String, EmuError>)
    ensures
        handled(0x5d, execute, old(cpu)@, old(bst)@, old(bst).cursor() as int, text_view(r), final(cpu)@, final(bst)@, final(bst).cursor() as int),
{
    handle(0x5d, execute, cpu, bst)
}

/// The handler of the arithmetic group on `r/m16` with a word immediate (opcode 0x81).
pub fn op_81(execute: bool, cpu: &mut Cpu, bst: &mut ByteStream) -> (r: Result<String, EmuError>)
    ensures
        handled(0x81, execute, old(cpu)@, old(bst)@, old(bst).cursor() as int, text_view(r), final(cpu)@, final(bst)@, final(bst).cursor() as int),
{
    handle(0x81, execute, cpu, bst)
}

/// The handler of the arithmetic group on `r/m16` with a sign-extended byte immediate (opcode 0x83).
pub fn op_83(execute: bool, cpu: &mut Cpu, bst: &mut ByteStream) -> (r: Result<String, EmuError>)
    ensures
        handled(0x83, execute, old(cpu)@, old(bst)@, old(bst).cursor() as int, text_view(r), final(cpu)@, final(bst)@, final(bst).cursor() as int),
{
    handle(0x83, execute, cpu, bst)
}

/// The handler of `mov reg16, r/m16` (opcode 0x8B).
pub fn op_8b(execute: bool, cpu: &mut Cpu, bst: &mut ByteStream) -> (r: Result<String, EmuError>)
    ensures
        handled(0x8b, execute, old(cpu)@, old(bst)@, old(bst).cursor() as int, text_view(r), final(cpu)@, final(bst)@, final(bst).cursor() as int),
{
    handle(0x8b, execute, cpu, bst)
}

/// The handler of `mov r/m16, sreg` (opcode 0x8C).
pub fn op_8c(execute: bool, cpu: &mut Cpu, bst: &mut ByteStream) -> (r: Result<String, EmuError>)
    ensures
        handled(0x8c, execute, old(cpu)@, old(bst)@, old(bst).cursor() as int, text_view(r), final(cpu)@, final(bst)@, final(bst).cursor() as int),
{
    handle(0x8c, execute, cpu, bst)
}

/// The handler of `lea reg16, mem` (opcode 0x8D).
pub fn op_8d(execute: bool, cpu: &mut Cpu, bst: &mut ByteStream) -> (r: Result<String, EmuError>)
    ensures
        handled(0x8d, execute, old(cpu)@, old(bst)@, old(bst).cursor() as int, text_view(r), final(cpu)@, final(bst)@, final(bst).cursor() as int),
{
    handle(0x8d, execute, cpu, bst)
}

/// The handler of `mov sreg, r/m16` (opcode 0x8E).
pub fn op_8e(execute: bool, cpu: &mut Cpu, bst: &mut ByteStream) -> (r: Result<String, EmuError>)
    ensures
        handled(0x8e, execute, old(cpu)@, old(bst)@, old(bst).cursor() as int, text_view(r), final(cpu)@, final(bst)@, final(bst).cursor() as int),
{
    handle(0x8e, execute, cpu, bst)
}

/// The handler of `scasb` (opcode 0xAE).
pub fn op_ae(execute: bool, cpu: &mut Cpu, bst: &mut ByteStream) -> (r: Result<String, EmuError>)
    ensures
        handled(0xae, execute, old(cpu)@, old(bst)@, old(bst).cursor() as int, text_view(r), final(cpu)@, final(bst)@, final(bst).cursor() as int),
{
    handle(0xae, execute, cpu, bst)
}

/// The handler of `mov al, imm8` (opcode 0xB0).
pub fn op_b0(execute: bool, cpu: &mut Cpu, bst: &mut ByteStream) -> (r: Result<String, EmuError>)
    ensures
        handled(0xb0, execute, old(cpu)@, old(bst)@, old(bst).cursor() as int, text_view(r), final(cpu)@, final(bst)@, final(bst).cursor() as int),
{
    handle(0xb0, execute, cpu, bst)
}

/// The handler of `mov cl, imm8` (opcode 0xB1).
pub fn op_b1(execute: bool, cpu: &mut Cpu, bst: &mut ByteStream) -> (r: Result<String, EmuError>)
    ensures
        handled(0xb1, execute, old(cpu)@, old(bst)@, old(bst).cursor() as int, text_view(r), final(cpu)@, final(bst)@, final(bst).cursor() as int),
{
    handle(0xb1, execute, cpu, bst)
}

/// The handler of `mov dl, imm8` (opcode 0xB2).
pub fn op_b2(execute: bool, cpu: &mut Cpu, bst: &mut ByteStream) -> (r: Result<String, EmuError>)
    ensures
        handled(0xb2, execute, old(cpu)@, old(bst)@, old(bst).cursor() as int, text_view(r), final(cpu)@, final(bst)@, final(bst).cursor() as int),
{
    handle(0xb2, execute, cpu, bst)
}

/// The handler of `mov bl, imm8` (opcode 0xB3).
pub fn op_b3(execute: bool, cpu: &mut Cpu, bst: &mut ByteStream) -> (r: Result<String, EmuError>)
    ensures
        handled(0xb3, execute, old(cpu)@, old(bst)@, old(bst).cursor() as int, text_view(r), final(cpu)@, final(bst)@, final(bst).cursor() as int),
{
    handle(0xb3, execute, cpu, bst)
}

/// The handler of `mov ah, imm8` (opcode 0xB4).
pub fn op_b4(execute: bool, cpu: &mut Cpu, bst: &mut ByteStream) -> (r: Result<String, EmuError>)
    ensures
        handled(0xb4, execute, old(cpu)@, old(bst)@, old(bst).cursor() as int, text_view(r), final(cpu)@, final(bst)@, final(bst).cursor() as int),
{
    handle(0xb4, execute, cpu, bst)
}

/// The handler of `mov ch, imm8` (opcode 0xB5).
pub fn op_b5(execute: bool, cpu: &mut Cpu, bst: &mut ByteStream) -> (r: Result<String, EmuError>)
    ensures
        handled(0xb5, execute, old(cpu)@, old(bst)@, old(bst).cursor() as int, text_view(r), final(cpu)@, final(bst)@, final(bst).cursor() as int),
{
    handle(0xb5, execute, cpu, bst)
}

/// The handler of `mov dh, imm8` (opcode 0xB6).
pub fn op_b6(execute: bool, cpu: &mut Cpu, bst: &mut ByteStream) -> (r: Result<String, EmuError>)
    ensures
        handled(0xb6, execute, old(cpu)@, old(bst)@, old(bst).cursor() as int, text_view(r), final(cpu)@, final(bst)@, final(bst).cursor() as int),
{
    handle(0xb6, execute, cpu, bst)
}

/// The handler of `mov bh, imm8` (opcode 0xB7).
pub fn op_b7(execute: bool, cpu: &mut Cpu, bst: &mut ByteStream) -> (r: Result<String, EmuError>)
    ensures
        handled(0xb7, execute, old(cpu)@, old(bst)@, old(bst).cursor() as int, text_view(r), final(cpu)@, final(bst)@, final(bst).cursor() as int),
{
    handle(0xb7, execute, cpu, bst)
}

/// The handler of `mov ax, imm16` (opcode 0xB8).
pub fn op_b8(execute: bool, cpu: &mut Cpu, bst: &mut ByteStream) -> (r: Result<String, EmuError>)
    ensures
        handled(0xb8, execute, old(cpu)@, old(bst)@, old(bst).cursor() as int, text_view(r), final(cpu)@, final(bst)@, final(bst).cursor() as int),
{
    handle(0xb8, execute, cpu, bst)
}

/// The handler of `mov cx, imm16` (opcode 0xB9).
pub fn op_b9(execute: bool, cpu: &mut Cpu, bst: &mut ByteStream) -> (r: Result<String, EmuError>)
    ensures
        handled(0xb9, execute, old(cpu)@, old(bst)@, old(bst).cursor() as int, text_view(r), final(cpu)@, final(bst)@, final(bst).cursor() as int),
{
    handle(0xb9, execute, cpu, bst)
}

/// The handler of `mov dx, imm16` (opcode 0xBA).
pub fn op_ba(execute: bool, cpu: &mut Cpu, bst: &mut ByteStream) -> (r: Result<String, EmuError>)
    ensures
        handled(0xba, execute, old(cpu)@, old(bst)@, old(bst).cursor() as int, text_view(r), final(cpu)@, final(bst)@, final(bst).cursor() as int),
{
    handle(0xba, execute, cpu, bst)
}

/// The handler of `mov bx, imm16` (opcode 0xBB).
pub fn op_bb(execute: bool, cpu: &mut Cpu, bst: &mut ByteStream) -> (r: Result<String, EmuError>)
    ensures
        handled(0xbb, execute, old(cpu)@, old(bst)@, old(bst).cursor() as int, text_view(r), final(cpu)@, final(bst)@, final(bst).cursor() as int),
{
    handle(0xbb, execute, cpu, bst)
}

/// The handler of `mov sp, imm16` (opcode 0xBC).
pub fn op_bc(execute: bool, cpu: &mut Cpu, bst: &mut ByteStream) -> (r: Result<String, EmuError>)
    ensures
        handled(0xbc, execute, old(cpu)@, old(bst)@, old(bst).cursor() as int, text_view(r), final(cpu)@, final(bst)@, final(bst).cursor() as int),
{
    handle(0xbc, execute, cpu, bst)
}

/// The handler of `mov bp, imm16` (opcode 0xBD).
pub fn op_bd(execute: bool, cpu: &mut Cpu, bst: &mut ByteStream) -> (r: Result<String, EmuError>)
    ensures
        handled(0xbd, execute, old(cpu)@, old(bst)@, old(bst).cursor() as int, text_view(r), final(cpu)@, final(bst)@, final(bst).cursor() as int),
{
    handle(0xbd, execute, cpu, bst)
}

/// The handler of `mov si, imm16` (opcode 0xBE).
pub fn op_be(execute: bool, cpu: &mut Cpu, bst: &mut ByteStream) -> (r: Result<String, EmuError>)
    ensures
        handled(0xbe, execute, old(cpu)@, old(bst)@, old(bst).cursor() as int, text_view(r), final(cpu)@, final(bst)@, final(bst).cursor() as int),
{
    handle(0xbe, execute, cpu, bst)
}

/// The handler of `mov di, imm16` (opcode 0xBF).
pub fn op_bf(execute: bool, cpu: &mut Cpu, bst: &mut ByteStream) -> (r: Result<String, EmuError>)
    ensures
        handled(0xbf, execute, old(cpu)@, old(bst)@, old(bst).cursor() as int, text_view(r), final(cpu)@, final(bst)@, final(bst).cursor() as int),
{
    handle(0xbf, execute, cpu, bst)
}

/// The handler of `ret` (near) (opcode 0xC3).
pub fn op_c3(execute: bool, cpu: &mut Cpu, bst: &mut ByteStream) -> (r: Result<String, EmuError>)
    ensures
        handled(0xc3, execute, old(cpu)@, old(bst)@, old(bst).cursor() as int, text_view(r), final(cpu)@, final(bst)@, final(bst).cursor() as int),
{
    handle(0xc3, execute, cpu, bst)
}

/// The handler of `call rel16` (near) (opcode 0xE8).
pub fn op_e8(execute: bool, cpu: &mut Cpu, bst: &mut ByteStream) -> (r: Result<String, EmuError>)
    ensures
        handled(0xe8, execute, old(cpu)@, old(bst)@, old(bst).cursor() as int, text_view(r), final(cpu)@, final(bst)@, final(bst).cursor() as int),
{
    handle(0xe8, execute, cpu, bst)
}

/// The handler of the `repne` prefix and the instruction it repeats (opcode 0xF2).
pub fn op_f2(execute: bool, cpu: &mut Cpu, bst: &mut ByteStream) -> (r: Result<String, EmuError>)
    ensures
        handled(0xf2, execute, old(cpu)@, old(bst)@, old(bst).cursor() as int, text_view(r), final(cpu)@, final(bst)@, final(bst).cursor() as int),
{
    handle(0xf2, execute, cpu, bst)
}

/// The handler of the `repe` prefix and the instruction it repeats (opcode 0xF3).
pub fn op_f3(execute: bool, cpu: &mut Cpu, bst: &mut ByteStream) -> (r: Result<String, EmuError>)
    ensures
        handled(0xf3, execute, old(cpu)@, old(bst)@, old(bst).cursor() as int, text_view(r), final(cpu)@, final(bst)@, final(bst).cursor() as int),
{
    handle(0xf3, execute, cpu, bst)
}

/// The handler of `test`, `not` and `neg` on `r/m16` (opcode 0xF7).
pub fn op_f7(execute: bool, cpu: &mut Cpu, bst: &mut ByteStream) -> (r: Result<String, EmuError>)
    ensures
        handled(0xf7, execute, old(cpu)@, old(bst)@, old(bst).cursor() as int, text_view(r), final(cpu)@, final(bst)@, final(bst).cursor() as int),
{
    handle(0xf7, execute, cpu, bst)
}

/// The handler of `int imm8` (opcode 0xCD); see `dos_op_cd`.
pub fn op_cd(execute: bool, cpu: &mut Cpu, bst: &mut ByteStream) -> (r: Result<(String, InteruptChange), EmuError>)
    ensures
        match handler_spec(0xCD, execute, old(cpu)@, old(bst)@, old(bst).cursor() as int) {
            Ok(o) => r is Ok && r->Ok_0.0@ == o.text && r->Ok_0.1 == o.effect
                && holds(final(cpu)@, final(bst)@, final(bst).cursor() as int, o.machine),
            Err(e) => r == Err::<(String, InteruptChange), EmuError>(e),
        },
        r is Err && fails_cleanly(0xCD, old(cpu)@, old(bst)@, old(bst).cursor() as int) ==> final(cpu)@ == old(cpu)@
            && final(bst)@ == old(bst)@ && final(bst).cursor() == old(bst).cursor(),
{
    dos_op_cd(execute, cpu, bst)
}

/// Decodes the instruction under the cursor without running it, and moves the
/// cursor past it. The context is only read (by `int 21h`, for the string it
/// would print).
pub fn parse_byte_code(cpu: &Cpu, bst: &mut ByteStream) -> (r: Result<String, EmuError>)
    ensures
        final(bst)@ == old(bst)@,
        match step_spec(false, cpu@, old(bst)@, old(bst).cursor() as int) {
            Ok(o) => r is Ok && r->Ok_0@ == o.text && final(bst).cursor() == o.next,
            Err(e) => r == Err::<String, EmuError>(e) && final(bst).cursor() == old(bst).cursor(),
        },
{
    let p = bst.pos();
    if p >= bst.len() {
        return Err(EmuError::BufferUnderrun);
    }
    let op = match bst.read_byte_at(p) {
        Ok(b) => b,
        Err(e) => return Err(e),
    };
    let (st, next) = match decode_step(op, cpu, bst, p + 1) {
        Ok(d) => d,
        Err(e) => return Err(e),
    };
    proof {
        reveal(decode_spec);
        if op == 0xF2 || op == 0xF3 {
            lemma_decoded_text_ready(cpu@, bst@, bst@[p + 1], p + 2);
        } else {
            lemma_decoded_text_ready(cpu@, bst@, op, p + 1);
        }
    }
    let text = step_string(st, bst);
    bst.set_pos(next);
    Ok(text)
}

/// Decodes and runs the instruction under the cursor. On failure the cursor
/// stays at the instruction.
pub fn execute_byte_code(cpu: &mut Cpu, bst: &mut ByteStream) -> (r: Result<(String, InteruptChange), EmuError>)
    ensures
        match step_spec(true, old(cpu)@, old(bst)@, old(bst).cursor() as int) {
            Ok(o) => r is Ok && r->Ok_0.0@ == o.text && r->Ok_0.1 == o.effect
                && holds(final(cpu)@, final(bst)@, final(bst).cursor() as int, o.machine),
            Err(e) => r == Err::<(String, InteruptChange), EmuError>(e) && final(bst).cursor() == old(bst).cursor(),
        },
        r is Err && fits(old(bst)@.len() as int, old(bst).cursor() as int, 1) && fails_cleanly(
            old(bst)@[old(bst).cursor() as int],
            old(cpu)@,
            old(bst)@,
            old(bst).cursor() + 1,
        ) ==> final(cpu)@ == old(cpu)@ && final(bst)@ == old(bst)@,
{
    let p = bst.pos();
    match bst.read_byte() {
        Ok(op) => match run_opcode(op, true, cpu, bst) {
            Ok(done) => Ok(done),
            Err(e) => {
                bst.set_pos(p);
                Err(e)
            },
        },
        Err(e) => Err(e),
    }
}

/// The texts of a list of strings.
pub open spec fn texts(v: Seq<String>) -> Seq<Seq<char>> {
    v.map_values(|s: String| s@)
}

/// Disassembles a whole image, decoding only, from its first byte to its
/// end; the first undecodable instruction ends it with its error.
pub fn parse_code(bytes: &Vec<u8>) -> (r: Result<Vec<String>, EmuError>)
    ensures
        match listing(zeroed_state(), bytes@, 0) {
            Ok(lines) => r is Ok && texts(r->Ok_0@) == lines,
            Err(e) => r == Err::<Vec<String>, EmuError>(e),
        },
{
    let cpu = Cpu::new();
    let mut bst = ByteStream::new(bytes.clone());
    assert(bst@ =~= bytes@);
    let mut code: Vec<String> = Vec::new();
    let ghost goal = listing(zeroed_state(), bytes@, 0);
    while bst.available()
        invariant
            cpu@ == zeroed_state(),
            bst@ == bytes@,
            bst.cursor() <= bytes@.len(),
            goal == listing(zeroed_state(), bytes@, 0),
            match listing(zeroed_state(), bytes@, bst.cursor() as int) {
                Ok(rest) => goal == Ok::<Seq<Seq<char>>, EmuError>(texts(code@) + rest),
                Err(e) => goal == Err::<Seq<Seq<char>>, EmuError>(e),
            },
        decreases bytes@.len() - bst.cursor(),
    {
        let ghost at = bst.cursor() as int;
        proof {
            lemma_step_advances(false, cpu@, bst@, at);
        }
        match parse_byte_code(&cpu, &mut bst) {
            Ok(t) => {
                let ghost before = code@;
                code.push(t);
                proof {
                    assert(texts(code@) =~= texts(before) + seq![t@]);
                    let rest = listing(zeroed_state(), bytes@, bst.cursor() as int);
                    if rest is Ok {
                        assert(texts(before) + (seq![t@] + rest->Ok_0) =~= texts(code@) + rest->Ok_0);
                    }
                }
            },
            Err(e) => return Err(e),
        }
    }
    assert(texts(code@) + Seq::<Seq<char>>::empty() =~= texts(code@));
    Ok(code)
}

/// Combines what a run produced so far with the outcome of the rest of it.
pub open spec fn run_after(lines: Seq<Seq<char>>, out: Seq<u8>, rest: Result<Run, EmuError>) -> Result<Run, EmuError> {
    match rest {
        Ok(r) => Ok(Run { lines: lines + r.lines, out: out + r.out, machine: r.machine }),
        Err(e) => Err(e),
    }
}

/// Emulates an image from its first byte with the context `cpu`: runs
/// instructions until the cursor leaves the image or `max_steps` have run.
/// Returns the text of each instruction run; what the image prints is
/// appended to `console`. The first error ends the run.
pub fn execute_code(bytes: &Vec<u8>, cpu: &mut Cpu, max_steps: usize, console: &mut Vec<u8>) -> (r: Result<Vec<String>, EmuError>)
    ensures
        match run_spec((Machine { cpu: old(cpu)@, mem: bytes@, pos: 0 }), max_steps as nat) {
            Ok(run) => r is Ok && texts(r->Ok_0@) == run.lines && final(console)@ == old(console)@ + run.out
                && final(cpu)@ == run.machine.cpu,
            Err(e) => r == Err::<Vec<String>, EmuError>(e),
        },
{
    let mut bst = ByteStream::new(bytes.clone());
    assert(bst@ =~= bytes@);
    let mut code: Vec<String> = Vec::new();
    let ghost goal = run_spec(Machine { cpu: cpu@, mem: bytes@, pos: 0 }, max_steps as nat);
    let ghost printed: Seq<u8> = Seq::empty();
    let mut steps: usize = 0;
    while steps < max_steps && bst.available()
        invariant
            steps <= max_steps,
            goal == run_spec((Machine { cpu: old(cpu)@, mem: bytes@, pos: 0 }), max_steps as nat),
            console@ == old(console)@ + printed,
            goal == run_after(
                texts(code@),
                printed,
                run_spec((Machine { cpu: cpu@, mem: bst@, pos: bst.cursor() as int }), (max_steps - steps) as nat),
            ),
        decreases max_steps - steps,
    {
        let ghost m = Machine { cpu: cpu@, mem: bst@, pos: bst.cursor() as int };
        let ghost before = code@;
        proof {
            lemma_effect_in_image(cpu@, bst@, bst.cursor() as int);
        }
        match execute_byte_code(cpu, &mut bst) {
            Ok((t, effect)) => {
                code.push(t);
                match effect {
                    InteruptChange::String(s, e) => {
                        match bst.read_bytes_at((e - s) as usize, s as usize) {
                            Ok(v) => {
                                let mut v = v;
                                console.append(&mut v);
                            },
                            Err(_) => {},
                        }
                    },
                    InteruptChange::NoChange => {},
                }
                proof {
                    let o = step_spec(true, m.cpu, m.mem, m.pos)->Ok_0;
                    assert(texts(code@) =~= texts(before) + seq![t@]);
                    let rest = run_spec(
                        Machine { cpu: cpu@, mem: bst@, pos: bst.cursor() as int },
                        (max_steps - steps - 1) as nat,
                    );
                    if rest is Ok {
                        assert(texts(before) + (seq![t@] + rest->Ok_0.lines) =~= texts(code@) + rest->Ok_0.lines);
                        assert(printed + (emitted(o.effect, m.mem) + rest->Ok_0.out) =~= (printed + emitted(
                            o.effect,
                            m.mem,
                        )) + rest->Ok_0.out);
                    }
                    printed = printed + emitted(o.effect, m.mem);
                }
            },
            Err(e) => return Err(e),
        }
        steps = steps + 1;
    }
    proof {
        assert(texts(code@) + Seq::<Seq<char>>::empty() =~= texts(code@));
        assert(printed + Seq::<u8>::empty() =~= printed);
    }
    Ok(code)
}

/// Disassembles a whole image, decoding only; a byte that starts no
/// decodable instruction is listed as `db 0xNN` and skipped.
pub fn parse_code_lenient(bytes: &Vec<u8>) -> (r: Vec<String>)
    ensures
        texts(r@) == lenient_listing(zeroed_state(), bytes@, 0),
{
    let cpu = Cpu::new();
    let mut bst = ByteStream::new(bytes.clone());
    assert(bst@ =~= bytes@);
    let mut code: Vec<String> = Vec::new();
    while bst.available()
        invariant
            cpu@ == zeroed_state(),
            bst@ == bytes@,
            bst.cursor() <= bytes@.len(),
            lenient_listing(zeroed_state(), bytes@, 0) == texts(code@) + lenient_listing(
                zeroed_state(),
                bytes@,
                bst.cursor() as int,
            ),
        decreases bytes@.len() - bst.cursor(),
    {
        let ghost at = bst.cursor() as int;
        let ghost before = code@;
        proof {
            lemma_step_advances(false, cpu@, bst@, at);
        }
        let line = match parse_byte_code(&cpu, &mut bst) {
            Ok(t) => t,
            Err(_) => {
                let p = bst.pos();
                let n = bst.len();
                assert(p < n);
                let mut t = String::from_str("db 0x");
                match bst.read_byte_at(p) {
                    Ok(v) => push_hex(&mut t, v as u32),
                    Err(_) => {},
                }
                bst.set_pos(p + 1);
                t
            },
        };
        code.push(line);
        proof {
            assert(texts(code@) =~= texts(before) + seq![line@]);
            assert(texts(before) + (seq![line@] + lenient_listing(zeroed_state(), bytes@, bst.cursor() as int))
                =~= texts(code@) + lenient_listing(zeroed_state(), bytes@, bst.cursor() as int));
        }
    }
    assert(texts(code@) + Seq::<Seq<char>>::empty() =~= texts(code@));
    code
}

} // verus!
