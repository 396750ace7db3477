use realmode::byte_stream::ByteStream;
use realmode::cpu::{get_ax, get_cx, get_flags, set_ax, set_cx, set_dx, set_flags, Cpu, Reg16, Reg8, SegReg};
use realmode::error::EmuError;
use realmode::executable::InteruptChange;
use realmode::x86_16::{
    step_report, execute_byte_code, execute_code, op_00, op_50, op_83, op_b8, op_cd, op_f7, parse_byte_code, parse_code,
};

fn run_one(bytes: Vec<u8>, cpu: &mut Cpu) -> Result<(String, InteruptChange), EmuError> {
    let mut bst = ByteStream::new(bytes);
    execute_byte_code(cpu, &mut bst)
}

#[test]
fn scenario_push_ax() {
    let mut cpu = Cpu::new();
    set_ax(&mut cpu, 0x1234);
    let (text, effect) = run_one(vec![0x50], &mut cpu).unwrap();
    assert_eq!(text, "push ax");
    assert_eq!(effect, InteruptChange::NoChange);
    assert_eq!(cpu.stack_top(), Some(0x1234));
    assert_eq!(cpu.stack_depth(), 1);
}

#[test]
fn scenario_mov_ax_imm16() {
    let mut cpu = Cpu::new();
    let (text, _) = run_one(vec![0xB8, 0x34, 0x12], &mut cpu).unwrap();
    assert_eq!(text, "mov ax,0x1234");
    assert_eq!(get_ax(&cpu), 0x1234);
    assert_eq!(cpu.get_reg8(Reg8::Ah), 0x12);
    assert_eq!(cpu.get_reg8(Reg8::Al), 0x34);
}

fn print_image() -> Vec<u8> {
    let mut image = vec![0u8; 0x13];
    image[0] = 0xCD;
    image[1] = 0x21;
    image[0x10] = 0x48;
    image[0x11] = 0x49;
    image[0x12] = 0x24;
    image
}

#[test]
fn scenario_print_string() {
    let mut cpu = Cpu::new();
    cpu.set_reg8(Reg8::Ah, 0x09);
    set_dx(&mut cpu, 0x10);
    let (text, effect) = run_one(print_image(), &mut cpu).unwrap();
    assert_eq!(text, "int 21h\n; printf(HI);");
    assert_eq!(effect, InteruptChange::String(0x10, 0x12));

    let mut cpu = Cpu::new();
    cpu.set_reg8(Reg8::Ah, 0x09);
    set_dx(&mut cpu, 0x10);
    let mut console = Vec::new();
    let lines = execute_code(&print_image(), &mut cpu, 1, &mut console).unwrap();
    assert_eq!(lines, vec!["int 21h\n; printf(HI);".to_string()]);
    assert_eq!(console, b"HI".to_vec());
}

#[test]
fn scenario_sub_ax_wraps() {
    let mut cpu = Cpu::new();
    set_ax(&mut cpu, 3);
    let (text, _) = run_one(vec![0x83, 0xE8, 0x05], &mut cpu).unwrap();
    assert_eq!(text, "sub ax,0x5");
    assert_eq!(get_ax(&cpu), 0xFFFE);
    let f = cpu.flags();
    assert!(f.cf);
    assert!(f.sf);
    assert!(!f.zf);
    assert!(!f.of);
}

#[test]
fn decode_and_execute_agree() {
    let programs: Vec<Vec<u8>> = vec![
        vec![0x00],
        vec![0x50],
        vec![0x0E],
        vec![0xB8, 0x34, 0x12],
        vec![0xB4, 0x09],
        vec![0x83, 0xE8, 0x05],
        vec![0x81, 0xC3, 0x00, 0x01],
        vec![0x33, 0xC0],
        vec![0x8B, 0xD8],
        vec![0x8D, 0x46, 0xFE],
        vec![0xF7, 0xD8],
        vec![0xF7, 0xC0, 0xFF, 0x00],
        vec![0xE8, 0x10, 0x00],
        vec![0xCD, 0x10],
    ];
    for bytes in programs {
        let mut probe_cpu = Cpu::new();
        set_ax(&mut probe_cpu, 0x0102);
        probe_cpu.push(7);
        let mut probe = ByteStream::new(bytes.clone());
        let probed = parse_byte_code(&probe_cpu, &mut probe).unwrap();

        let mut run_cpu = Cpu::new();
        set_ax(&mut run_cpu, 0x0102);
        run_cpu.push(7);
        let mut live = ByteStream::new(bytes.clone());
        let before = live.pos();
        let mut decoded_len = ByteStream::new(bytes.clone());
        let _ = parse_byte_code(&run_cpu, &mut decoded_len);
        let (executed, _) = execute_byte_code(&mut run_cpu, &mut live).unwrap();
        assert_eq!(probed, executed);
        assert_eq!(probe.pos(), decoded_len.pos());
        assert_eq!(probe.pos() - before, bytes.len());
        assert_eq!(get_ax(&probe_cpu), 0x0102);
    }
}

#[test]
fn handler_modes_agree() {
    let mut probe_cpu = Cpu::new();
    let mut probe = ByteStream::new(vec![0x34, 0x12]);
    let a = op_b8(false, &mut probe_cpu, &mut probe).unwrap();
    let mut run_cpu = Cpu::new();
    let mut live = ByteStream::new(vec![0x34, 0x12]);
    let b = op_b8(true, &mut run_cpu, &mut live).unwrap();
    assert_eq!(a, b);
    assert_eq!(probe.pos(), live.pos());
    assert_eq!(get_ax(&probe_cpu), 0);
    assert_eq!(get_ax(&run_cpu), 0x1234);
}

#[test]
fn word_write_reads_back_as_halves() {
    let mut cpu = Cpu::new();
    for v in [0u16, 1, 0x00FF, 0x0100, 0x1234, 0xABCD, 0xFFFF] {
        set_cx(&mut cpu, v);
        let hi = cpu.get_reg8(Reg8::Ch) as u16;
        let lo = cpu.get_reg8(Reg8::Cl) as u16;
        assert_eq!((hi << 8) | lo, v);
        assert_eq!(get_cx(&cpu), v);
    }
}

#[test]
fn half_write_changes_word() {
    let mut cpu = Cpu::new();
    set_ax(&mut cpu, 0x1234);
    cpu.set_reg8(Reg8::Ah, 0xAB);
    assert_eq!(get_ax(&cpu), 0xAB34);
    cpu.set_reg8(Reg8::Al, 0xCD);
    assert_eq!(get_ax(&cpu), 0xABCD);
}

#[test]
fn flags_round_trip() {
    let mut cpu = Cpu::new();
    for v in [0u16, 0x0001, 0x0040, 0x0ED5, 0x7FD5, 0x3001] {
        set_flags(&mut cpu, v);
        assert_eq!(get_flags(&cpu), v);
    }
    set_flags(&mut cpu, 0xFFFF);
    assert_eq!(get_flags(&cpu), 0x7FD5);
}

#[test]
fn stack_push_then_pop() {
    let mut cpu = Cpu::new();
    cpu.push(1);
    let depth = cpu.stack_depth();
    cpu.push(0xBEEF);
    assert_eq!(cpu.pop(), Ok(0xBEEF));
    assert_eq!(cpu.stack_depth(), depth);
    assert_eq!(cpu.pop(), Ok(1));
    assert_eq!(cpu.pop(), Err(EmuError::StackUnderflow));
}

#[test]
fn pop_on_empty_stack_underflows() {
    let mut cpu = Cpu::new();
    assert_eq!(run_one(vec![0x5D], &mut cpu), Err(EmuError::StackUnderflow));
    let mut cpu = Cpu::new();
    assert_eq!(run_one(vec![0xC3], &mut cpu), Err(EmuError::StackUnderflow));
}

#[test]
fn modrm_direct_address_ignores_registers() {
    let mut image = vec![0u8; 0x40];
    image[0] = 0x8B;
    image[1] = 0x06;
    image[2] = 0x20;
    image[3] = 0x00;
    image[0x20] = 0xCD;
    image[0x21] = 0xAB;
    let mut cpu = Cpu::new();
    cpu.set_reg(Reg16::Bx, 0x0004);
    cpu.set_reg(Reg16::Si, 0x0002);
    let (text, _) = run_one(image, &mut cpu).unwrap();
    assert_eq!(text, "mov ax,[0x20]");
    assert_eq!(get_ax(&cpu), 0xABCD);
}

#[test]
fn modrm_byte_displacement_is_signed() {
    let mut cpu = Cpu::new();
    cpu.set_reg(Reg16::Bp, 0x0010);
    let (text, _) = run_one(vec![0x8D, 0x46, 0xFE], &mut cpu).unwrap();
    assert_eq!(text, "lea ax,[bp-0x2]");
    assert_eq!(get_ax(&cpu), 0x000E);
}

#[test]
fn modrm_word_displacement_adds_to_base() {
    let mut image = vec![0u8; 0x40];
    image[0] = 0x8B;
    image[1] = 0x87;
    image[2] = 0x10;
    image[3] = 0x00;
    image[0x18] = 0x34;
    image[0x19] = 0x12;
    let mut cpu = Cpu::new();
    cpu.set_reg(Reg16::Bx, 0x0008);
    let (text, _) = run_one(image, &mut cpu).unwrap();
    assert_eq!(text, "mov ax,[bx+0x10]");
    assert_eq!(get_ax(&cpu), 0x1234);
}

#[test]
fn bp_based_operands_use_stack_segment() {
    let mut image = vec![0u8; 0x40];
    image[0] = 0x8B;
    image[1] = 0x46;
    image[2] = 0x02;
    image[0x22] = 0x78;
    image[0x23] = 0x56;
    let mut cpu = Cpu::new();
    cpu.set_seg(SegReg::Ss, 0x0002);
    cpu.set_seg(SegReg::Ds, 0x0001);
    let (text, _) = run_one(image, &mut cpu).unwrap();
    assert_eq!(text, "mov ax,[bp+0x2]");
    assert_eq!(get_ax(&cpu), 0x5678);
}

#[test]
fn xor_clears_register_and_sets_flags() {
    let mut cpu = Cpu::new();
    set_ax(&mut cpu, 0x5555);
    let (text, _) = run_one(vec![0x33, 0xC0], &mut cpu).unwrap();
    assert_eq!(text, "xor ax,ax");
    assert_eq!(get_ax(&cpu), 0);
    assert!(cpu.flags().zf);
    assert!(cpu.flags().pf);
    assert!(!cpu.flags().cf);
}

#[test]
fn neg_sets_carry_and_sign() {
    let mut cpu = Cpu::new();
    set_ax(&mut cpu, 1);
    let (text, _) = run_one(vec![0xF7, 0xD8], &mut cpu).unwrap();
    assert_eq!(text, "neg ax");
    assert_eq!(get_ax(&cpu), 0xFFFF);
    let f = cpu.flags();
    assert!(f.cf && f.sf && f.pf && !f.zf && !f.of);
    set_ax(&mut cpu, 0x8000);
    let _ = run_one(vec![0xF7, 0xD8], &mut cpu).unwrap();
    assert_eq!(get_ax(&cpu), 0x8000);
    assert!(cpu.flags().of);
}

#[test]
fn not_complements_without_flags() {
    let mut cpu = Cpu::new();
    set_ax(&mut cpu, 0x00FF);
    set_flags(&mut cpu, 0x0001);
    let mut bst = ByteStream::new(vec![0xD0]);
    let text = op_f7(true, &mut cpu, &mut bst).unwrap();
    assert_eq!(text, "not ax");
    assert_eq!(get_ax(&cpu), 0xFF00);
    assert_eq!(get_flags(&cpu), 0x0001);
}

#[test]
fn test_sets_flags_from_operand() {
    let mut cpu = Cpu::new();
    set_ax(&mut cpu, 0x8003);
    set_flags(&mut cpu, 0x0801);
    let (text, _) = run_one(vec![0xF7, 0xC0, 0x00, 0x80], &mut cpu).unwrap();
    assert_eq!(text, "test ax,0x8000");
    let f = cpu.flags();
    assert!(!f.cf && !f.of && !f.zf && f.sf && f.pf);
    assert_eq!(get_ax(&cpu), 0x8003);
}

#[test]
fn test_with_zero_immediate_looks_at_operand() {
    let mut cpu = Cpu::new();
    set_ax(&mut cpu, 1);
    let (text, _) = run_one(vec![0xF7, 0xC0, 0x00, 0x00], &mut cpu).unwrap();
    assert_eq!(text, "test ax,0x0");
    let f = cpu.flags();
    assert!(!f.zf && !f.sf && !f.pf);
    set_ax(&mut cpu, 0);
    let _ = run_one(vec![0xF7, 0xC0, 0xFF, 0xFF], &mut cpu).unwrap();
    assert!(cpu.flags().zf && cpu.flags().pf);
}

#[test]
fn add_with_word_immediate_to_memory() {
    let mut image = vec![0u8; 0x20];
    image[0] = 0x81;
    image[1] = 0x06;
    image[2] = 0x10;
    image[3] = 0x00;
    image[4] = 0x01;
    image[5] = 0x00;
    image[0x10] = 0xFF;
    image[0x11] = 0xFF;
    let mut cpu = Cpu::new();
    let mut bst = ByteStream::new(image);
    let (text, _) = execute_byte_code(&mut cpu, &mut bst).unwrap();
    assert_eq!(text, "add [0x10],0x1");
    assert_eq!(bst.read_word_at(0x10), Ok(0));
    assert!(cpu.flags().cf && cpu.flags().zf);
}

#[test]
fn cmp_leaves_operand() {
    let mut cpu = Cpu::new();
    set_ax(&mut cpu, 5);
    let (text, _) = run_one(vec![0x83, 0xF8, 0x05], &mut cpu).unwrap();
    assert_eq!(text, "cmp ax,0x5");
    assert_eq!(get_ax(&cpu), 5);
    assert!(cpu.flags().zf);
}

#[test]
fn repne_scasb_finds_byte() {
    let mut image = vec![0xF2, 0xAE];
    image.extend_from_slice(b"abcXd");
    let mut cpu = Cpu::new();
    cpu.set_reg8(Reg8::Al, b'X');
    cpu.set_reg(Reg16::Di, 2);
    set_cx(&mut cpu, 10);
    let mut bst = ByteStream::new(image);
    let (text, _) = execute_byte_code(&mut cpu, &mut bst).unwrap();
    assert_eq!(text, "repne scasb");
    assert_eq!(cpu.get_reg(Reg16::Di), 6);
    assert_eq!(get_cx(&cpu), 6);
    assert!(cpu.flags().zf);
    assert_eq!(bst.pos(), 2);
}

#[test]
fn repne_stops_when_cx_runs_out() {
    let image = vec![0xF2, 0xAE, 1, 2, 3, 4];
    let mut cpu = Cpu::new();
    cpu.set_reg8(Reg8::Al, 9);
    cpu.set_reg(Reg16::Di, 2);
    set_cx(&mut cpu, 3);
    let mut bst = ByteStream::new(image);
    let _ = execute_byte_code(&mut cpu, &mut bst).unwrap();
    assert_eq!(get_cx(&cpu), 0);
    assert_eq!(cpu.get_reg(Reg16::Di), 5);
    assert!(!cpu.flags().zf);
}

#[test]
fn repeat_with_changed_decode_fails() {
    let mut cpu = Cpu::new();
    set_cx(&mut cpu, 5);
    assert_eq!(
        run_one(vec![0xF2, 0xF7, 0x16, 0x03, 0x00], &mut cpu),
        Err(EmuError::InconsistentRepeatDecode)
    );
}

#[test]
fn call_and_return() {
    let mut cpu = Cpu::new();
    let mut bst = ByteStream::new(vec![0xE8, 0x01, 0x00, 0x00, 0xC3]);
    let (text, _) = execute_byte_code(&mut cpu, &mut bst).unwrap();
    assert_eq!(text, "call 0x4");
    assert_eq!(bst.pos(), 4);
    assert_eq!(cpu.stack_top(), Some(3));
    let (text, _) = execute_byte_code(&mut cpu, &mut bst).unwrap();
    assert_eq!(text, "ret");
    assert_eq!(bst.pos(), 3);
    assert_eq!(cpu.stack_depth(), 0);
}

#[test]
fn segment_moves() {
    let mut cpu = Cpu::new();
    set_ax(&mut cpu, 0x0700);
    let (text, _) = run_one(vec![0x8E, 0xD8], &mut cpu).unwrap();
    assert_eq!(text, "mov ds,ax");
    assert_eq!(cpu.get_seg(SegReg::Ds), 0x0700);
    let (text, _) = run_one(vec![0x8C, 0xDB], &mut cpu).unwrap();
    assert_eq!(text, "mov bx,ds");
    assert_eq!(cpu.get_reg(Reg16::Bx), 0x0700);
    let (text, _) = run_one(vec![0x0E], &mut cpu).unwrap();
    assert_eq!(text, "push cs");
    let (text, _) = run_one(vec![0x1F], &mut cpu).unwrap();
    assert_eq!(text, "pop ds");
    assert_eq!(cpu.get_seg(SegReg::Ds), 0);
}

#[test]
fn unknown_segment_register() {
    let mut cpu = Cpu::new();
    assert_eq!(run_one(vec![0x8C, 0xE8], &mut cpu), Err(EmuError::UnknownRegister));
}

#[test]
fn unsupported_opcode() {
    let mut cpu = Cpu::new();
    assert_eq!(run_one(vec![0xFF], &mut cpu), Err(EmuError::UnsupportedOpcode(0xFF)));
    assert_eq!(parse_code(&vec![0x00, 0x90]), Err(EmuError::UnsupportedOpcode(0x90)));
}

#[test]
fn truncated_instruction_underruns() {
    let mut cpu = Cpu::new();
    assert_eq!(run_one(vec![0xB8, 0x34], &mut cpu), Err(EmuError::BufferUnderrun));
    let mut bst = ByteStream::new(vec![0x34]);
    assert_eq!(op_b8(true, &mut cpu, &mut bst), Err(EmuError::BufferUnderrun));
    let mut bst = ByteStream::new(vec![0xE8]);
    assert_eq!(op_83(false, &mut cpu, &mut bst), Err(EmuError::BufferUnderrun));
}

#[test]
fn missing_terminator() {
    let mut cpu = Cpu::new();
    cpu.set_reg8(Reg8::Ah, 0x09);
    set_dx(&mut cpu, 2);
    assert_eq!(run_one(vec![0xCD, 0x21, 0x41, 0x42], &mut cpu), Err(EmuError::TerminatorNotFound));
}

#[test]
fn other_interrupts_have_no_effect() {
    let mut cpu = Cpu::new();
    let mut bst = ByteStream::new(vec![0x10]);
    let (text, effect) = op_cd(true, &mut cpu, &mut bst).unwrap();
    assert_eq!(text, "int 10h");
    assert_eq!(effect, InteruptChange::NoChange);
}

#[test]
fn print_string_escapes_line_breaks() {
    let mut cpu = Cpu::new();
    cpu.set_reg8(Reg8::Ah, 0x09);
    set_dx(&mut cpu, 2);
    let (text, effect) = run_one(vec![0xCD, 0x21, b'a', b'\n', b'\r', b'$'], &mut cpu).unwrap();
    assert_eq!(text, "int 21h\n; printf(a\\n\\r);");
    assert_eq!(effect, InteruptChange::String(2, 5));
}

#[test]
fn listing_of_small_program() {
    let lines = parse_code(&vec![0x00, 0xB8, 0x34, 0x12, 0x50, 0xB0, 0x2A]).unwrap();
    assert_eq!(lines, vec!["nop", "mov ax,0x1234", "push ax", "mov al,0x2A"]);
    assert_eq!(op_00(), "nop");
}

#[test]
fn run_stops_after_step_budget() {
    let mut cpu = Cpu::new();
    let mut console = Vec::new();
    let lines = execute_code(&vec![0x50, 0x50, 0x50], &mut cpu, 2, &mut console).unwrap();
    assert_eq!(lines.len(), 2);
    assert_eq!(cpu.stack_depth(), 2);
    assert!(console.is_empty());
}

#[test]
fn push_handler_directly() {
    let mut cpu = Cpu::new();
    set_ax(&mut cpu, 0x4242);
    let mut bst = ByteStream::new(vec![]);
    assert_eq!(op_50(true, &mut cpu, &mut bst), Ok("push ax".to_string()));
    assert_eq!(cpu.stack_top(), Some(0x4242));
}

#[test]
fn failed_step_changes_nothing() {
    let mut cpu = Cpu::new();
    set_ax(&mut cpu, 0x1111);
    let mut bst = ByteStream::new(vec![0x00, 0x5D]);
    bst.set_pos(1);
    assert_eq!(execute_byte_code(&mut cpu, &mut bst), Err(EmuError::StackUnderflow));
    assert_eq!(bst.pos(), 1);
    assert_eq!(get_ax(&cpu), 0x1111);
    assert_eq!(cpu.stack_depth(), 0);
    let mut bst = ByteStream::new(vec![0x8B, 0x06, 0x00, 0x10]);
    assert_eq!(execute_byte_code(&mut cpu, &mut bst), Err(EmuError::BufferUnderrun));
    assert_eq!(bst.pos(), 0);
    assert_eq!(bst.read_bytes_at(4, 0), Ok(vec![0x8B, 0x06, 0x00, 0x10]));
}

#[test]
fn report_keeps_text_when_running_fails() {
    let mut probe_cpu = Cpu::new();
    let mut probe = ByteStream::new(vec![0x5D]);
    let decoded = step_report(false, &mut probe_cpu, &mut probe).unwrap();
    assert_eq!(decoded.text, "pop bp");
    assert_eq!(decoded.len, 1);
    assert_eq!(decoded.run, Ok(InteruptChange::NoChange));
    assert_eq!(probe.pos(), 1);

    let mut cpu = Cpu::new();
    let mut live = ByteStream::new(vec![0x5D]);
    let ran = step_report(true, &mut cpu, &mut live).unwrap();
    assert_eq!(ran.text, decoded.text);
    assert_eq!(ran.len, decoded.len);
    assert_eq!(ran.run, Err(EmuError::StackUnderflow));
    assert_eq!(live.pos(), 0);

    let mut image = vec![0x8B, 0x06, 0x00, 0x10];
    let mut probe = ByteStream::new(image.clone());
    let decoded = step_report(false, &mut Cpu::new(), &mut probe).unwrap();
    let mut live = ByteStream::new(image.clone());
    let ran = step_report(true, &mut Cpu::new(), &mut live).unwrap();
    assert_eq!(decoded.text, "mov ax,[0x1000]");
    assert_eq!((ran.text, ran.len), (decoded.text, decoded.len));
    assert_eq!(ran.run, Err(EmuError::BufferUnderrun));
    image.truncate(3);
    let mut short = ByteStream::new(image);
    assert!(matches!(step_report(true, &mut Cpu::new(), &mut short), Err(EmuError::BufferUnderrun)));
    assert_eq!(short.pos(), 0);
}

#[test]
fn report_in_both_modes_on_success() {
    let mut cpu = Cpu::new();
    set_ax(&mut cpu, 0x0203);
    let mut live = ByteStream::new(vec![0x83, 0xC0, 0x01]);
    let ran = step_report(true, &mut cpu, &mut live).unwrap();
    assert_eq!(ran.text, "add ax,0x1");
    assert_eq!(ran.len, 3);
    assert_eq!(get_ax(&cpu), 0x0204);
    assert_eq!(live.pos(), 3);
}

#[test]
fn high_half_moves() {
    let mut cpu = Cpu::new();
    set_ax(&mut cpu, 0x0034);
    let (text, _) = run_one(vec![0xB4, 0x12], &mut cpu).unwrap();
    assert_eq!(text, "mov ah,0x12");
    assert_eq!(get_ax(&cpu), 0x1234);
    set_cx(&mut cpu, 0x0078);
    let (text, _) = run_one(vec![0xB5, 0x56], &mut cpu).unwrap();
    assert_eq!(text, "mov ch,0x56");
    assert_eq!(get_cx(&cpu), 0x5678);
}

#[test]
fn push_ax_then_pop_bp() {
    let mut cpu = Cpu::new();
    cpu.push(9);
    set_ax(&mut cpu, 0xCAFE);
    let _ = run_one(vec![0x50], &mut cpu).unwrap();
    let (text, _) = run_one(vec![0x5D], &mut cpu).unwrap();
    assert_eq!(text, "pop bp");
    assert_eq!(cpu.get_reg(Reg16::Bp), 0xCAFE);
    assert_eq!(cpu.stack_depth(), 1);
    assert_eq!(cpu.stack_top(), Some(9));
}
