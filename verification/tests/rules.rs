use machine_code::assembly::{Argument, Instruction, Register};
use machine_code::ast::{
    AsmArg, AsmInstr, IrArg, IrLabel, IrPattern, IrPatternLast, IrRegister, Node, Pattern, Rule,
    Span,
};
use machine_code::ident::Ident;

fn id(name: &str) -> Ident {
    Ident::from_text(name)
}

fn node<T>(value: T) -> Node<T> {
    Node::new(value, Span { lo: 0, hi: 0 })
}

#[test]
fn ir_arg_names_both_kinds() {
    assert_eq!(IrArg::Register(id("a")).get_name().as_str(), "a");
    assert_eq!(IrArg::Literal(id("1")).get_name().as_str(), "1");
}

#[test]
fn add_rule_template_yields_inplace_instruction() {
    // A rule matching `t1 = add a, b` whose template is one machine `add`
    // that reuses t1 as both destination and first source.
    let rule = Rule {
        pattern: node(Pattern {
            ir_patterns: vec![node(IrPattern::Add(
                node(IrRegister(id("t1"))),
                node(IrArg::Register(id("a"))),
                node(IrArg::Register(id("b"))),
            ))],
            last: None,
        }),
        template: node(vec![node(AsmInstr {
            mnemonic: node(id("add")),
            args: vec![node(AsmArg::IrArg(node(id("t1")))), node(AsmArg::IrArg(node(id("a"))))],
        })]),
    };

    // Instantiating that template over the matched addition binds t1 and a
    // to virtual registers and produces one instruction.
    let template = &rule.template.value;
    assert_eq!(template.len(), 1);
    let instr = &template[0].value;
    let mnemonic = instr.mnemonic.value.clone();
    let args: Vec<Argument> = instr
        .args
        .iter()
        .map(|a| match &a.value {
            AsmArg::IrArg(name) => {
                Argument::Register(Register::Virtual(name.value.clone()))
            }
            _ => panic!("this template only references pattern-bound names"),
        })
        .collect();
    let built = Instruction::new(mnemonic, args);

    let inputs: Vec<String> = built.inputs().iter().map(|r| r.render()).collect();
    let outputs: Vec<String> = built.outputs().iter().map(|r| r.render()).collect();
    assert!(inputs.contains(&"%a".to_string()));
    assert!(inputs.contains(&"%t1".to_string()));
    assert_eq!(outputs, vec!["%t1".to_string()]);
}

#[test]
fn patterns_carry_their_terminator() {
    let p = Pattern {
        ir_patterns: vec![],
        last: Some(node(IrPatternLast::Jmp(node(IrLabel(id("exit")))))),
    };
    match p.last {
        Some(last) => match last.value {
            IrPatternLast::Jmp(target) => assert_eq!(target.value.0.as_str(), "exit"),
            _ => panic!("the terminator built was a jump"),
        },
        None => panic!("a terminator was set"),
    }
}
