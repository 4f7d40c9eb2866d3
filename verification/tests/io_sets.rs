use machine_code::assembly::{Argument, Instruction, Register};
use machine_code::ident::Ident;
use machine_code::machine::{MachineRegister, OperandSize};

fn vreg(name: &str) -> Register {
    Register::Virtual(Ident::from_text(name))
}

fn instr(mnemonic: &str, args: Vec<Argument>) -> Instruction {
    Instruction::new(Ident::from_text(mnemonic), args)
}

fn rendered(regs: &[Register]) -> Vec<String> {
    regs.iter().map(|r| r.render()).collect()
}

#[test]
fn inplace_add_reads_and_writes_first() {
    let i = instr(
        "add",
        vec![Argument::Register(vreg("t1")), Argument::Register(vreg("a"))],
    );
    assert_eq!(rendered(&i.outputs()), vec!["%t1".to_string()]);
    assert_eq!(
        rendered(&i.inputs()),
        vec!["%t1".to_string(), "%a".to_string()]
    );
}

#[test]
fn cmp_is_inputs_only() {
    let i = instr(
        "cmp",
        vec![Argument::Register(vreg("a")), Argument::Register(vreg("b"))],
    );
    assert!(i.outputs().is_empty());
    assert_eq!(
        rendered(&i.inputs()),
        vec!["%a".to_string(), "%b".to_string()]
    );
}

#[test]
fn push_is_inputs_only() {
    let i = instr("push", vec![Argument::Register(vreg("x"))]);
    assert!(i.outputs().is_empty());
    assert_eq!(rendered(&i.inputs()), vec!["%x".to_string()]);
}

#[test]
fn mov_into_memory_is_inputs_only() {
    let i = instr(
        "mov",
        vec![
            Argument::Indirect {
                size: None,
                base: Some(vreg("r")),
                index: None,
                disp: None,
            },
            Argument::Register(vreg("v")),
        ],
    );
    assert!(i.outputs().is_empty());
    assert_eq!(
        rendered(&i.inputs()),
        vec!["%r".to_string(), "%v".to_string()]
    );
}

#[test]
fn mov_into_register_writes_first_operand() {
    let i = instr(
        "mov",
        vec![Argument::Register(vreg("d")), Argument::Register(vreg("s"))],
    );
    assert_eq!(rendered(&i.outputs()), vec!["%d".to_string()]);
    assert_eq!(rendered(&i.inputs()), vec!["%s".to_string()]);
}

#[test]
fn default_mnemonic_writes_first_operand() {
    let i = instr(
        "imul",
        vec![Argument::Register(vreg("d")), Argument::Register(vreg("s"))],
    );
    assert_eq!(rendered(&i.outputs()), vec!["%d".to_string()]);
    assert_eq!(rendered(&i.inputs()), vec!["%s".to_string()]);
}

#[test]
fn indirect_destination_is_never_an_output() {
    // A default-class mnemonic with an indirect first operand: its base
    // register is an addressing read, not an output.
    let i = instr(
        "lea",
        vec![
            Argument::Indirect {
                size: None,
                base: Some(vreg("b")),
                index: None,
                disp: None,
            },
            Argument::Register(vreg("s")),
        ],
    );
    assert!(i.outputs().is_empty());
    assert_eq!(rendered(&i.inputs()), vec!["%s".to_string()]);
}

#[test]
fn inplace_indirect_destination_is_never_an_output() {
    let i = instr(
        "add",
        vec![
            Argument::Indirect {
                size: None,
                base: Some(vreg("b")),
                index: None,
                disp: None,
            },
            Argument::Register(vreg("v")),
        ],
    );
    assert!(i.outputs().is_empty());
    assert_eq!(
        rendered(&i.inputs()),
        vec!["%b".to_string(), "%v".to_string()]
    );
}

#[test]
fn no_operands_no_registers() {
    let i = instr("ret", vec![]);
    assert!(i.inputs().is_empty());
    assert!(i.outputs().is_empty());
}

#[test]
fn indirect_source_contributes_base_and_index() {
    let i = instr(
        "mov",
        vec![
            Argument::Register(vreg("d")),
            Argument::Indirect {
                size: Some(OperandSize::DWord),
                base: Some(Register::Machine(MachineRegister::Rbp)),
                index: Some((Register::Machine(MachineRegister::Rax), 4)),
                disp: Some(-8),
            },
        ],
    );
    assert_eq!(rendered(&i.outputs()), vec!["%d".to_string()]);
    assert_eq!(
        rendered(&i.inputs()),
        vec!["rbp".to_string(), "rax".to_string()]
    );
}

#[test]
fn immediates_and_labels_contribute_no_registers() {
    let i = instr(
        "mov",
        vec![Argument::Register(vreg("d")), Argument::Immediate(7)],
    );
    assert_eq!(rendered(&i.outputs()), vec!["%d".to_string()]);
    assert!(i.inputs().is_empty());
}
