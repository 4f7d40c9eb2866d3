//! The instruction-selection rule language.
//!
//! A `Rule` pairs a pattern — a sequence of IR-operation shapes, plus an
//! optional block terminator — with a template of target instructions to
//! instantiate on a match. Patterns bind IR registers, arguments and
//! labels by name; the template refers to those names, introduces fresh
//! virtual registers, or names concrete machine registers and literal or
//! indirect operands directly.
//!
//! A rule is pure data: matching, binding and template instantiation are
//! the rule engine's job. Rules reaching this layer are assumed
//! well-formed; in particular, that every name a template refers to is
//! bound by the pattern or introduced earlier in the same template is
//! checked at rule-load time, not here.

use vstd::prelude::*;

use crate::ident::Ident;
use crate::machine::{MachineRegister, OperandSize};

verus! {

/// Where in its rule file a piece of a rule was written.
pub struct Span {
    pub lo: usize,
    pub hi: usize,
}

/// A value of the rule file together with its source span.
pub struct Node<T> {
    pub value: T,
    pub span: Span,
}

impl<T> Node<T> {
    pub fn new(value: T, span: Span) -> (r: Node<T>)
        ensures
            r == (Node { value, span }),
    {
        Node { value, span }
    }
}

/// One selection rule: the IR shape to match and the instruction template
/// to instantiate.
pub struct Rule {
    pub pattern: Node<Pattern>,
    pub template: Node<Vec<Node<AsmInstr>>>,
}

/// The pattern side: an ordered list of IR-operation shapes, optionally
/// closed by a terminator shape, since a matched sequence may end its
/// basic block.
pub struct Pattern {
    pub ir_patterns: Vec<Node<IrPattern>>,
    pub last: Option<Node<IrPatternLast>>,
}

/// The shapes of the non-terminator IR operations a pattern can match,
/// each binding the named registers and arguments it mentions.
pub enum IrPattern {
    Add(Node<IrRegister>, Node<IrArg>, Node<IrArg>),
    Sub(Node<IrRegister>, Node<IrArg>, Node<IrArg>),
    Mul(Node<IrRegister>, Node<IrArg>, Node<IrArg>),
    Div(Node<IrRegister>, Node<IrArg>, Node<IrArg>),
    Pow(Node<IrRegister>, Node<IrArg>, Node<IrArg>),
    Mod(Node<IrRegister>, Node<IrArg>, Node<IrArg>),
    Shl(Node<IrRegister>, Node<IrArg>, Node<IrArg>),
    Shr(Node<IrRegister>, Node<IrArg>, Node<IrArg>),
    And(Node<IrRegister>, Node<IrArg>, Node<IrArg>),
    Or(Node<IrRegister>, Node<IrArg>, Node<IrArg>),
    Xor(Node<IrRegister>, Node<IrArg>, Node<IrArg>),
    Neg(Node<IrRegister>, Node<IrArg>),
    Not(Node<IrRegister>, Node<IrArg>),
    CmpLt(Node<IrRegister>, Node<IrArg>, Node<IrArg>),
    CmpLe(Node<IrRegister>, Node<IrArg>, Node<IrArg>),
    CmpEq(Node<IrRegister>, Node<IrArg>, Node<IrArg>),
    CmpNe(Node<IrRegister>, Node<IrArg>, Node<IrArg>),
    CmpGe(Node<IrRegister>, Node<IrArg>, Node<IrArg>),
    CmpGt(Node<IrRegister>, Node<IrArg>, Node<IrArg>),
    Alloca(Node<IrRegister>),
    Load(Node<IrRegister>, Node<IrArg>),
    Store(Node<IrArg>, Node<IrArg>),
    Call(Node<IrRegister>, Node<Ident>, Node<Ident>),
}

/// The shapes of the block terminators a pattern can close with.
pub enum IrPatternLast {
    Ret(Option<Node<IrArg>>),
    Br(Node<IrArg>, Node<IrLabel>, Node<IrLabel>),
    Jmp(Node<IrLabel>),
}

/// An IR operand as a pattern binds it: a register name or a literal
/// name.
pub enum IrArg {
    Register(Ident),
    Literal(Ident),
}

/// The name an IR argument binds, whichever kind it is.
pub open spec fn spec_ir_arg_name(a: IrArg) -> Seq<char> {
    match a {
        IrArg::Register(id) => id@,
        IrArg::Literal(id) => id@,
    }
}

impl IrArg {
    /// The bound name, register or literal alike.
    pub fn get_name(&self) -> (r: Ident)
        ensures
            r@ == spec_ir_arg_name(*self),
    {
        match self {
            IrArg::Register(id) => id.clone(),
            IrArg::Literal(id) => id.clone(),
        }
    }
}

/// A register name a pattern introduces.
pub struct IrRegister(pub Ident);

/// A label name a pattern introduces.
pub struct IrLabel(pub Ident);

/// One template instruction: a mnemonic and its operands.
pub struct AsmInstr {
    pub mnemonic: Node<Ident>,
    pub args: Vec<Node<AsmArg>>,
}

/// One template operand: a concrete machine register, a fresh virtual
/// register the template introduces (later template lines may reuse the
/// name), a reference to a pattern-bound argument, a literal, a label, or
/// an indirect expression built from other template operands.
pub enum AsmArg {
    Register(MachineRegister),
    NewRegister(Node<Ident>),
    IrArg(Node<Ident>),
    Literal(Node<Ident>),
    Label(Node<Ident>),
    Indirect {
        size: Option<OperandSize>,
        base: Option<Box<AsmArg>>,
        index: Option<(Box<AsmArg>, u32)>,
        disp: Option<i32>,
    },
}

} // verus!
