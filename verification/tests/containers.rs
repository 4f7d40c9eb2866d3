use machine_code::assembly::{
    Assembly, Block, Fn, Instruction, InternalError, Phi, Register,
};
use machine_code::ident::Ident;
use machine_code::machine::MachineRegister;

fn id(name: &str) -> Ident {
    Ident::from_text(name)
}

#[test]
fn into_machine_on_machine_register() {
    let r = Register::Machine(MachineRegister::Rcx);
    assert!(matches!(r.into_machine(), Ok(MachineRegister::Rcx)));
}

#[test]
fn into_machine_on_virtual_register_is_fatal() {
    let r = Register::Virtual(id("t1"));
    match r.into_machine() {
        Err(InternalError::UnallocatedRegister(name)) => assert_eq!(name.as_str(), "t1"),
        _ => panic!("a virtual register must not convert"),
    }
}

#[test]
fn get_block_missing_label_is_not_found() {
    let f = Fn::new(vec![], vec![Block::new(id("entry")), Block::new(id("exit"))]);
    assert!(f.get_block(&id("loop_head")).is_none());
}

#[test]
fn get_block_finds_first_match() {
    let mut early = Block::new(id("entry"));
    early.emit_directive("first:".to_string());
    let late = Block::new(id("entry"));
    let f = Fn::new(vec![], vec![early, late]);
    let found = f.get_block(&id("entry")).expect("the label is present");
    assert_eq!(found.len(), 1);
}

#[test]
fn emit_block_appends() {
    let mut f = Fn::new(vec![id("a")], vec![]);
    f.emit_block(Block::new(id("entry")));
    f.emit_block(Block::new(id("exit")));
    assert_eq!(f.code().len(), 2);
    assert_eq!(f.code()[1].label().as_str(), "exit");
}

#[test]
fn get_fn_missing_name_is_fatal() {
    let mut a = Assembly::new();
    a.emit_fn(id("main"), vec![], vec![]);
    match a.get_fn(&id("helper")) {
        Err(InternalError::UnknownFunction(name)) => assert_eq!(name.as_str(), "helper"),
        _ => panic!("an unknown name must not resolve"),
    }
}

#[test]
fn emit_fn_replaces_under_same_name() {
    let mut a = Assembly::new();
    a.emit_fn(id("main"), vec![], vec![Block::new(id("old"))]);
    a.emit_fn(id("other"), vec![], vec![]);
    a.emit_fn(id("main"), vec![id("x")], vec![Block::new(id("new"))]);
    assert_eq!(a.fns().len(), 2);
    assert_eq!(a.fns()[0].0.as_str(), "main");
    let main = a.get_fn(&id("main")).expect("main was emitted");
    assert_eq!(main.args.len(), 1);
    assert_eq!(main.code()[0].label().as_str(), "new");
}

#[test]
fn set_phis_accumulates() {
    let mut b = Block::new(id("entry"));
    b.set_phis(vec![Phi { dest: id("x"), sources: vec![(id("p"), id("x0"))] }]);
    b.set_phis(vec![Phi { dest: id("y"), sources: vec![] }]);
    assert_eq!(b.phis().len(), 2);
    assert_eq!(b.phis()[0].dest.as_str(), "x");
    assert_eq!(b.phis()[1].dest.as_str(), "y");
}

#[test]
fn add_successors_accumulates_and_keeps_duplicates() {
    let mut b = Block::new(id("entry"));
    b.add_successors(&vec![id("then_block"), id("else_block")]);
    b.add_successors(&vec![id("then_block")]);
    let succ = b.successors();
    assert_eq!(succ.len(), 3);
    assert_eq!(succ[0].as_str(), "then_block");
    assert_eq!(succ[1].as_str(), "else_block");
    assert_eq!(succ[2].as_str(), "then_block");
}

#[test]
fn block_reports_its_lines() {
    let mut b = Block::new(id("entry"));
    assert_eq!(b.len(), 0);
    b.emit_directive("entry:".to_string());
    b.emit_instruction(Instruction::new(id("ret"), vec![]));
    assert_eq!(b.len(), 2);
    assert_eq!(b.code().len(), 2);
    assert_eq!(b.label().as_str(), "entry");
}

#[test]
fn emit_data_keeps_lines_verbatim_and_in_order() {
    let mut a = Assembly::new();
    a.emit_data("one: .long 1".to_string());
    a.emit_data("two: .long 2".to_string());
    let text = a.render();
    let one = text.find("one: .long 1").expect("first data line present");
    let two = text.find("two: .long 2").expect("second data line present");
    assert!(one < two);
}
