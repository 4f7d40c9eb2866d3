use machine_code::assembly::{Argument, Assembly, AssemblyLine, Block, Instruction, Register};
use machine_code::ident::Ident;
use machine_code::machine::{MachineRegister, OperandSize};

fn vreg(name: &str) -> Register {
    Register::Virtual(Ident::from_text(name))
}

#[test]
fn registers_render_canonically() {
    assert_eq!(Register::Machine(MachineRegister::Rax).render(), "rax");
    assert_eq!(Register::Machine(MachineRegister::R15).render(), "r15");
    assert_eq!(vreg("t1").render(), "%t1");
}

#[test]
fn plain_arguments_render_as_their_text() {
    assert_eq!(Argument::Immediate(42).render(), "42");
    assert_eq!(Argument::Immediate(-7).render(), "-7");
    assert_eq!(Argument::Immediate(0).render(), "0");
    assert_eq!(Argument::Address(Ident::from_text("buffer")).render(), "buffer");
    assert_eq!(Argument::Label(Ident::from_text("loop_head")).render(), "loop_head");
    assert_eq!(Argument::StackSlot(Ident::from_text("x")).render(), "{x}");
}

#[test]
fn extreme_immediates_render_exactly() {
    assert_eq!(
        Argument::Immediate(i64::MIN).render(),
        "-9223372036854775808"
    );
    assert_eq!(Argument::Immediate(i64::MAX).render(), "9223372036854775807");
    let far = Argument::Indirect {
        size: None,
        base: None,
        index: None,
        disp: Some(i32::MIN),
    };
    assert_eq!(far.render(), "[-2147483648]");
}

#[test]
fn indirect_with_base_only() {
    let a = Argument::Indirect {
        size: None,
        base: Some(Register::Machine(MachineRegister::Rbp)),
        index: None,
        disp: None,
    };
    assert_eq!(a.render(), "[rbp]");
}

#[test]
fn indirect_with_all_components() {
    let a = Argument::Indirect {
        size: None,
        base: Some(Register::Machine(MachineRegister::Rbp)),
        index: Some((Register::Machine(MachineRegister::Rax), 4)),
        disp: Some(-4),
    };
    assert_eq!(a.render(), "[rbp + rax * 4 + -4]");
}

#[test]
fn indirect_omits_absent_components() {
    let disp_only = Argument::Indirect {
        size: None,
        base: None,
        index: None,
        disp: Some(16),
    };
    assert_eq!(disp_only.render(), "[16]");
    let index_and_disp = Argument::Indirect {
        size: None,
        base: None,
        index: Some((vreg("i"), 8)),
        disp: Some(3),
    };
    assert_eq!(index_and_disp.render(), "[%i * 8 + 3]");
    let empty = Argument::Indirect {
        size: None,
        base: None,
        index: None,
        disp: None,
    };
    assert_eq!(empty.render(), "[]");
}

#[test]
fn indirect_size_keywords() {
    let sized = |size: OperandSize| Argument::Indirect {
        size: Some(size),
        base: Some(Register::Machine(MachineRegister::Rsp)),
        index: None,
        disp: None,
    };
    assert_eq!(sized(OperandSize::Byte).render(), "byte ptr [rsp]");
    assert_eq!(sized(OperandSize::Word).render(), "word ptr [rsp]");
    assert_eq!(sized(OperandSize::DWord).render(), "dword ptr [rsp]");
    assert_eq!(sized(OperandSize::QWord).render(), "qword ptr [rsp]");
}

#[test]
fn instructions_join_operands_with_comma() {
    let i = Instruction::new(
        Ident::from_text("mov"),
        vec![
            Argument::Register(Register::Machine(MachineRegister::Rax)),
            Argument::Immediate(1),
        ],
    );
    assert_eq!(i.render(), "mov rax, 1");
    let bare = Instruction::new(Ident::from_text("ret"), vec![]);
    assert_eq!(bare.render(), "ret");
}

#[test]
fn lines_indent_instructions_and_keep_directives_verbatim() {
    let d = AssemblyLine::Directive("main:".to_string());
    assert_eq!(d.render(), "main:");
    let i = AssemblyLine::Instruction(Instruction::new(Ident::from_text("ret"), vec![]));
    assert_eq!(i.render(), "    ret");
}

#[test]
fn blocks_render_their_lines_in_order() {
    let mut b = Block::new(Ident::from_text("entry"));
    b.emit_directive("main:".to_string());
    b.emit_instruction(Instruction::new(Ident::from_text("ret"), vec![]));
    assert_eq!(b.render(), "main:\n    ret\n");
}

#[test]
fn assembly_with_data_renders_byte_for_byte() {
    let mut a = Assembly::new();
    a.emit_data("msg: .long 7".to_string());
    let mut b = Block::new(Ident::from_text("entry"));
    b.emit_instruction(Instruction::new(
        Ident::from_text("mov"),
        vec![
            Argument::Register(Register::Machine(MachineRegister::Rax)),
            Argument::Immediate(1),
        ],
    ));
    a.emit_fn(Ident::from_text("main"), vec![], vec![b]);
    let expected =
        ".intel_syntax noprefix\n\n.data\n.align 4\nmsg: .long 7\n\n.text\n    mov rax, 1\n\n";
    assert_eq!(a.render(), expected);
}

#[test]
fn assembly_without_data_omits_data_section() {
    let a = Assembly::new();
    assert_eq!(a.render(), ".intel_syntax noprefix\n.text\n");
}

#[test]
fn functions_render_in_first_emitted_order() {
    let mut a = Assembly::new();
    let mut first = Block::new(Ident::from_text("f0"));
    first.emit_directive("f:".to_string());
    a.emit_fn(Ident::from_text("f"), vec![], vec![first]);
    let mut second = Block::new(Ident::from_text("g0"));
    second.emit_directive("g:".to_string());
    a.emit_fn(Ident::from_text("g"), vec![], vec![second]);
    assert_eq!(a.render(), ".intel_syntax noprefix\n.text\nf:\n\ng:\n\n");
}
