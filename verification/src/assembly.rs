//! The in-memory assembly representation: registers, operands,
//! instructions, labeled blocks, functions and the whole `Assembly`.
//!
//! Instruction selection builds these values; the register allocator reads
//! the per-instruction `inputs`/`outputs` sets and the blocks' successor
//! labels; rendering (see `render`) turns the finished `Assembly` into text.

use vstd::prelude::*;

use crate::ident::Ident;
use crate::machine::{MachineRegister, OperandSize, Word};

verus! {

/// A fatal internal-consistency failure: these mark bugs in the selection
/// or allocation pipeline and abort the compilation unit, they are never
/// recovered from.
#[derive(Debug)]
pub enum InternalError {
    /// A register that allocation should have replaced is still virtual.
    UnallocatedRegister(Ident),
    /// A function name was looked up that was never emitted.
    UnknownFunction(Ident),
}

/// A machine-operand register: either one of the fixed target registers,
/// or a virtual register still awaiting allocation.
pub enum Register {
    Machine(MachineRegister),
    Virtual(Ident),
}

impl Clone for Register {
    fn clone(&self) -> (r: Self)
        ensures
            r == *self,
    {
        match self {
            Register::Machine(m) => Register::Machine(*m),
            Register::Virtual(id) => Register::Virtual(id.clone()),
        }
    }
}

impl Register {
    /// Extracts the concrete machine register. Asking this of a register
    /// that is still virtual signals a fatal internal error: the allocator
    /// was skipped or ran incorrectly.
    pub fn into_machine(self) -> (r: Result<MachineRegister, InternalError>)
        ensures
            self is Machine ==> r == Ok::<MachineRegister, InternalError>(self->Machine_0),
            self is Virtual ==> r == Err::<MachineRegister, InternalError>(
                InternalError::UnallocatedRegister(self->Virtual_0),
            ),
    {
        match self {
            Register::Machine(m) => Ok(m),
            Register::Virtual(id) => Err(InternalError::UnallocatedRegister(id)),
        }
    }
}

/// One operand of an instruction.
pub enum Argument {
    /// A literal machine word.
    Immediate(Word),
    /// A named absolute address.
    Address(Ident),
    /// A jump target.
    Label(Ident),
    /// A direct register operand.
    Register(Register),
    /// A stack slot whose frame position is yet to be determined; used for
    /// function arguments and variables kept in memory.
    StackSlot(Ident),
    /// A memory reference `[base + index * scale + disp]`, each component
    /// optional, with an optional operand-width qualifier.
    Indirect {
        size: Option<OperandSize>,
        base: Option<Register>,
        index: Option<(Register, u32)>,
        disp: Option<i32>,
    },
}

/// The registers an operand mentions: a direct register operand is itself;
/// an indirect operand mentions its base and index registers; immediates,
/// addresses, labels and stack slots mention none.
pub open spec fn argument_registers(a: Argument) -> Seq<Register> {
    match a {
        Argument::Register(r) => seq![r],
        Argument::Indirect { base, index, .. } => (match base {
            Some(r) => seq![r],
            None => Seq::empty(),
        }) + (match index {
            Some((r, _scale)) => seq![r],
            None => Seq::empty(),
        }),
        _ => Seq::empty(),
    }
}

/// All registers mentioned by a list of operands, in operand order.
pub open spec fn registers_of(args: Seq<Argument>) -> Seq<Register>
    decreases args.len(),
{
    if args.len() == 0 {
        Seq::empty()
    } else {
        registers_of(args.drop_last()) + argument_registers(args.last())
    }
}

/// Mnemonics whose operands are all inputs: comparisons, test, and the
/// stack push.
pub open spec fn is_inputs_only_mnemonic(m: Seq<char>) -> bool {
    m == "test"@ || m == "cmp"@ || m == "push"@
}

/// Mnemonics whose first operand is both the sole output and one of the
/// inputs.
pub open spec fn is_inplace_mnemonic(m: Seq<char>) -> bool {
    m == "add"@ || m == "sub"@ || m == "and"@ || m == "or"@ || m == "xor"@ || m == "sal"@
        || m == "sar"@ || m == "idiv"@ || m == "neg"@ || m == "not"@
}

/// Whether an instruction reads all its operands and writes none of them:
/// either its mnemonic is inputs-only, or it is a `mov` whose destination
/// is an indirect memory reference (such a move writes memory, not a
/// register operand).
pub open spec fn spec_inputs_only(i: Instruction) -> bool {
    is_inputs_only_mnemonic(i.mnemonic@) || (i.mnemonic@ == "mov"@ && i.args@.len() > 0
        && i.args@[0] is Indirect)
}

/// The registers an instruction reads: all operands' registers for an
/// inputs-only or in-place instruction, and every operand's but the
/// first's otherwise. Addressing registers of an indirect destination are
/// always read, so they count here through the inputs-only `mov` case.
pub open spec fn spec_inputs(i: Instruction) -> Seq<Register> {
    if i.args@.len() == 0 {
        Seq::empty()
    } else if spec_inputs_only(i) || is_inplace_mnemonic(i.mnemonic@) {
        registers_of(i.args@)
    } else {
        registers_of(i.args@.skip(1))
    }
}

/// The register an operand names as a destination: only a direct register
/// operand is one. An indirect destination writes memory, and its base and
/// index registers are addressing reads, never outputs.
pub open spec fn argument_output_registers(a: Argument) -> Seq<Register> {
    match a {
        Argument::Register(r) => seq![r],
        _ => Seq::empty(),
    }
}

/// The registers an instruction writes: none for an inputs-only
/// instruction, and the destination register of the first operand
/// otherwise.
pub open spec fn spec_outputs(i: Instruction) -> Seq<Register> {
    if i.args@.len() > 0 && !spec_inputs_only(i) {
        argument_output_registers(i.args@[0])
    } else {
        Seq::empty()
    }
}

/// A mnemonic plus its ordered operands. Which operands are read and
/// which are written is derived on demand from the mnemonic's semantic
/// class, never stored.
pub struct Instruction {
    pub mnemonic: Ident,
    pub args: Vec<Argument>,
}

fn push_argument_registers(out: &mut Vec<Register>, a: &Argument)
    ensures
        final(out)@ == old(out)@ + argument_registers(*a),
{
    match a {
        Argument::Register(r) => {
            out.push(r.clone());
            proof {
                assert(out@ =~= old(out)@ + argument_registers(*a));
            }
        },
        Argument::Indirect { base, index, .. } => {
            if let Some(r) = base {
                out.push(r.clone());
            }
            if let Some((r, _scale)) = index {
                out.push(r.clone());
            }
            proof {
                assert(out@ =~= old(out)@ + argument_registers(*a));
            }
        },
        _ => {
            proof {
                assert(out@ =~= old(out)@ + argument_registers(*a));
            }
        },
    }
}

fn registers_from(args: &Vec<Argument>, start: usize) -> (r: Vec<Register>)
    requires
        start <= args@.len(),
    ensures
        r@ == registers_of(args@.skip(start as int)),
{
    let mut out: Vec<Register> = Vec::new();
    let mut i: usize = start;
    while i < args.len()
        invariant
            start <= i <= args@.len(),
            out@ == registers_of(args@.subrange(start as int, i as int)),
        decreases args@.len() - i,
    {
        push_argument_registers(&mut out, &args[i]);
        proof {
            let sub = args@.subrange(start as int, i + 1 as int);
            assert(sub.drop_last() =~= args@.subrange(start as int, i as int));
            assert(sub.last() == args@[i as int]);
        }
        i += 1;
    }
    proof {
        assert(args@.subrange(start as int, args@.len() as int) =~= args@.skip(start as int));
    }
    out
}

impl Instruction {
    pub fn new(mnemonic: Ident, args: Vec<Argument>) -> (r: Instruction)
        ensures
            r == (Instruction { mnemonic, args }),
    {
        Instruction { mnemonic, args }
    }

    fn has_inputs_only(&self) -> (r: bool)
        requires
            self.args@.len() > 0,
        ensures
            r == spec_inputs_only(*self),
    {
        if self.mnemonic.is_named("test") || self.mnemonic.is_named("cmp")
            || self.mnemonic.is_named("push") {
            return true;
        }
        if self.mnemonic.is_named("mov") {
            // mov with a memory destination reads every operand.
            if let Argument::Indirect { .. } = &self.args[0] {
                return true;
            }
        }
        false
    }

    fn is_inplace(&self) -> (r: bool)
        ensures
            r == is_inplace_mnemonic(self.mnemonic@),
    {
        self.mnemonic.is_named("add") || self.mnemonic.is_named("sub")
            || self.mnemonic.is_named("and") || self.mnemonic.is_named("or")
            || self.mnemonic.is_named("xor") || self.mnemonic.is_named("sal")
            || self.mnemonic.is_named("sar") || self.mnemonic.is_named("idiv")
            || self.mnemonic.is_named("neg") || self.mnemonic.is_named("not")
    }

    /// The registers this instruction reads.
    pub fn inputs(&self) -> (r: Vec<Register>)
        ensures
            r@ == spec_inputs(*self),
    {
        if self.args.len() > 0 {
            if self.has_inputs_only() || self.is_inplace() {
                let r = registers_from(&self.args, 0);
                proof {
                    assert(self.args@.skip(0) =~= self.args@);
                }
                r
            } else {
                registers_from(&self.args, 1)
            }
        } else {
            Vec::new()
        }
    }

    /// The registers this instruction writes.
    pub fn outputs(&self) -> (r: Vec<Register>)
        ensures
            r@ == spec_outputs(*self),
    {
        if self.args.len() > 0 && !self.has_inputs_only() {
            let mut out: Vec<Register> = Vec::new();
            if let Argument::Register(r) = &self.args[0] {
                out.push(r.clone());
            }
            proof {
                assert(out@ =~= spec_outputs(*self));
            }
            out
        } else {
            Vec::new()
        }
    }
}

/// One line of a block: a directive kept verbatim, or an instruction.
pub enum AssemblyLine {
    Directive(String),
    Instruction(Instruction),
}

/// A merge-point record inherited from the IR: the register it defines and
/// its sources, one (predecessor label, name) pair each. Blocks carry
/// these for the register allocator; they are never rendered as text.
pub struct Phi {
    pub dest: Ident,
    pub sources: Vec<(Ident, Ident)>,
}

/// The position of the first key equal to `key`, scanning left to right.
pub open spec fn first_pos(keys: Seq<Seq<char>>, key: Seq<char>) -> Option<int>
    decreases keys.len(),
{
    if keys.len() == 0 {
        None
    } else if keys[0] == key {
        Some(0)
    } else {
        match first_pos(keys.drop_first(), key) {
            Some(i) => Some(i + 1),
            None => None,
        }
    }
}

pub proof fn lemma_first_pos_found(keys: Seq<Seq<char>>, key: Seq<char>, i: int)
    requires
        0 <= i < keys.len(),
        keys[i] == key,
        forall|j: int| 0 <= j < i ==> keys[j] != key,
    ensures
        first_pos(keys, key) == Some(i),
    decreases i,
{
    if i > 0 {
        assert(keys[0] != key);
        let rest = keys.drop_first();
        assert(rest[i - 1] == keys[i]);
        assert(forall|j: int| 0 <= j < i - 1 ==> rest[j] == keys[j + 1] && rest[j] != key);
        lemma_first_pos_found(rest, key, i - 1);
    }
}

pub proof fn lemma_first_pos_none(keys: Seq<Seq<char>>, key: Seq<char>)
    requires
        forall|j: int| 0 <= j < keys.len() ==> keys[j] != key,
    ensures
        first_pos(keys, key) is None,
    decreases keys.len(),
{
    if keys.len() > 0 {
        let rest = keys.drop_first();
        assert(forall|j: int| 0 <= j < rest.len() ==> rest[j] == keys[j + 1] && rest[j] != key);
        lemma_first_pos_none(rest, key);
    }
}

/// The labels of a sequence of blocks, in order.
pub open spec fn block_labels(blocks: Seq<Block>) -> Seq<Seq<char>> {
    blocks.map_values(|b: Block| b.label@)
}

/// The position of the first block labeled `label`, if any.
pub open spec fn block_pos(blocks: Seq<Block>, label: Seq<char>) -> Option<int> {
    first_pos(block_labels(blocks), label)
}

/// A labeled straight-line sequence of assembly lines, with the phi nodes
/// it inherits from the IR and the labels of its successor blocks.
pub struct Block {
    pub label: Ident,
    pub lines: Vec<AssemblyLine>,
    pub phis: Vec<Phi>,
    pub successors: Vec<Ident>,
}

impl Block {
    /// An empty block under `label`: no lines, no phis, no successors yet.
    pub fn new(label: Ident) -> (r: Block)
        ensures
            r.label == label,
            r.lines@ == Seq::<AssemblyLine>::empty(),
            r.phis@ == Seq::<Phi>::empty(),
            r.successors@ == Seq::<Ident>::empty(),
    {
        Block { label, lines: Vec::new(), phis: Vec::new(), successors: Vec::new() }
    }

    /// Appends an instruction line.
    pub fn emit_instruction(&mut self, i: Instruction)
        ensures
            final(self).lines@ == old(self).lines@.push(AssemblyLine::Instruction(i)),
            final(self).label == old(self).label,
            final(self).phis == old(self).phis,
            final(self).successors == old(self).successors,
    {
        self.lines.push(AssemblyLine::Instruction(i));
    }

    /// Appends a directive line, kept verbatim.
    pub fn emit_directive(&mut self, d: String)
        ensures
            final(self).lines@ == old(self).lines@.push(AssemblyLine::Directive(d)),
            final(self).label == old(self).label,
            final(self).phis == old(self).phis,
            final(self).successors == old(self).successors,
    {
        self.lines.push(AssemblyLine::Directive(d));
    }

    /// The block's label.
    pub fn label(&self) -> (r: Ident)
        ensures
            r == self.label,
    {
        self.label.clone()
    }

    /// The block's lines, in emission order.
    pub fn code(&self) -> (r: &Vec<AssemblyLine>)
        ensures
            *r == self.lines,
    {
        &self.lines
    }

    /// How many lines the block holds.
    pub fn len(&self) -> (r: usize)
        ensures
            r == self.lines@.len(),
    {
        self.lines.len()
    }

    /// The phi records gathered so far.
    pub fn phis(&self) -> (r: &Vec<Phi>)
        ensures
            *r == self.phis,
    {
        &self.phis
    }

    /// Adds phi records; earlier ones are kept, never replaced.
    pub fn set_phis(&mut self, phis: Vec<Phi>)
        ensures
            final(self).phis@ == old(self).phis@ + phis@,
            final(self).label == old(self).label,
            final(self).lines == old(self).lines,
            final(self).successors == old(self).successors,
    {
        let mut more = phis;
        self.phis.append(&mut more);
    }

    /// The successor labels gathered so far; duplicates are possible and
    /// harmless for rendering.
    pub fn successors(&self) -> (r: &Vec<Ident>)
        ensures
            *r == self.successors,
    {
        &self.successors
    }

    /// Adds successor labels; earlier ones are kept.
    pub fn add_successors(&mut self, labels: &Vec<Ident>)
        ensures
            final(self).successors@ == old(self).successors@ + labels@,
            final(self).label == old(self).label,
            final(self).lines == old(self).lines,
            final(self).phis == old(self).phis,
    {
        let mut i: usize = 0;
        while i < labels.len()
            invariant
                i <= labels@.len(),
                self.successors@ == old(self).successors@ + labels@.take(i as int),
                self.label == old(self).label,
                self.lines == old(self).lines,
                self.phis == old(self).phis,
            decreases labels@.len() - i,
        {
            self.successors.push(labels[i].clone());
            proof {
                assert(labels@.take(i + 1 as int) =~= labels@.take(i as int).push(
                    labels@[i as int],
                ));
                assert(self.successors@ =~= old(self).successors@ + labels@.take(i + 1 as int));
            }
            i += 1;
        }
        proof {
            assert(labels@.take(labels@.len() as int) =~= labels@);
        }
    }
}

/// A function: its formal argument names and its blocks in emission order.
/// Block order is how the text is laid out, not necessarily control flow.
pub struct Fn {
    pub args: Vec<Ident>,
    pub code: Vec<Block>,
}

impl Fn {
    pub fn new(args: Vec<Ident>, code: Vec<Block>) -> (r: Fn)
        ensures
            r == (Fn { args, code }),
    {
        Fn { args, code }
    }

    /// Appends a block.
    pub fn emit_block(&mut self, block: Block)
        ensures
            final(self).code@ == old(self).code@.push(block),
            final(self).args == old(self).args,
    {
        self.code.push(block);
    }

    /// The first block labeled `label`, or nothing when no block of this
    /// function carries that label.
    pub fn get_block(&self, label: &Ident) -> (r: Option<&Block>)
        ensures
            (match block_pos(self.code@, label@) {
                Some(i) => r matches Some(b) && *b == self.code@[i],
                None => r is None,
            }),
    {
        let mut i: usize = 0;
        while i < self.code.len()
            invariant
                i <= self.code@.len(),
                forall|j: int| 0 <= j < i ==> self.code@[j].label@ != label@,
            decreases self.code@.len() - i,
        {
            if self.code[i].label.same_as(label) {
                proof {
                    assert(block_labels(self.code@)[i as int] == label@);
                    assert(forall|j: int|
                        0 <= j < i ==> block_labels(self.code@)[j] != label@);
                    lemma_first_pos_found(block_labels(self.code@), label@, i as int);
                }
                return Some(&self.code[i]);
            }
            i += 1;
        }
        proof {
            assert(forall|j: int|
                0 <= j < block_labels(self.code@).len() ==> block_labels(self.code@)[j]
                    != label@);
            lemma_first_pos_none(block_labels(self.code@), label@);
        }
        None
    }

    /// The blocks, in emission order.
    pub fn code(&self) -> (r: &Vec<Block>)
        ensures
            *r == self.code,
    {
        &self.code
    }
}

/// The names under which functions stand, in first-emitted order.
pub open spec fn fn_keys(code: Seq<(Ident, Fn)>) -> Seq<Seq<char>> {
    code.map_values(|p: (Ident, Fn)| p.0@)
}

/// The position of the function emitted under `name`, if any.
pub open spec fn fn_pos(code: Seq<(Ident, Fn)>, name: Seq<char>) -> Option<int> {
    first_pos(fn_keys(code), name)
}

/// The function emitted under `name`, if any.
pub open spec fn find_fn(code: Seq<(Ident, Fn)>, name: Seq<char>) -> Option<Fn> {
    match fn_pos(code, name) {
        Some(i) => Some(code[i].1),
        None => None,
    }
}

/// A whole compilation unit: its data-section lines and its functions,
/// each under a name. Functions keep first-emitted order, so rendering is
/// deterministic.
pub struct Assembly {
    pub data: Vec<String>,
    pub code: Vec<(Ident, Fn)>,
}

impl Assembly {
    /// Function names are unique: emitting under a taken name replaces in
    /// place instead of adding a second entry.
    pub open spec fn wf(self) -> bool {
        forall|i: int, j: int|
            0 <= i < j < self.code@.len() ==> self.code@[i].0@ != self.code@[j].0@
    }

    /// An empty assembly: no data lines, no functions.
    pub fn new() -> (r: Assembly)
        ensures
            r.data@ == Seq::<String>::empty(),
            r.code@ == Seq::<(Ident, Fn)>::empty(),
            r.wf(),
    {
        Assembly { data: Vec::new(), code: Vec::new() }
    }

    /// Appends one data-section line, kept verbatim.
    pub fn emit_data(&mut self, d: String)
        ensures
            final(self).data@ == old(self).data@.push(d),
            final(self).code == old(self).code,
    {
        self.data.push(d);
    }

    /// Inserts the function under `name`, or silently replaces the one
    /// already standing there, keeping its position.
    pub fn emit_fn(&mut self, name: Ident, args: Vec<Ident>, code: Vec<Block>)
        ensures
            final(self).data == old(self).data,
            (match fn_pos(old(self).code@, name@) {
                Some(i) => final(self).code@ == old(self).code@.update(
                    i,
                    (name, Fn { args, code }),
                ),
                None => final(self).code@ == old(self).code@.push((name, Fn { args, code })),
            }),
            old(self).wf() ==> final(self).wf(),
    {
        let f = Fn::new(args, code);
        let mut i: usize = 0;
        while i < self.code.len()
            invariant
                i <= self.code@.len(),
                forall|j: int| 0 <= j < i ==> self.code@[j].0@ != name@,
                *self == *old(self),
                f == (Fn { args, code }),
            decreases self.code@.len() - i,
        {
            if self.code[i].0.same_as(&name) {
                proof {
                    assert(fn_keys(self.code@)[i as int] == name@);
                    assert(forall|j: int| 0 <= j < i ==> fn_keys(self.code@)[j] != name@);
                    lemma_first_pos_found(fn_keys(self.code@), name@, i as int);
                }
                self.code[i] = (name, f);
                proof {
                    assert forall|a: int, b: int|
                        0 <= a < b < self.code@.len() && old(self).wf() implies self.code@[a].0@
                        != self.code@[b].0@ by {
                        assert(old(self).code@[a].0@ != old(self).code@[b].0@);
                    }
                }
                return;
            }
            i += 1;
        }
        proof {
            assert(forall|j: int|
                0 <= j < fn_keys(self.code@).len() ==> fn_keys(self.code@)[j] != name@);
            lemma_first_pos_none(fn_keys(self.code@), name@);
        }
        self.code.push((name, f));
        proof {
            assert forall|a: int, b: int|
                0 <= a < b < self.code@.len() && old(self).wf() implies self.code@[a].0@
                != self.code@[b].0@ by {
                if b < self.code@.len() - 1 {
                    assert(old(self).code@[a].0@ != old(self).code@[b].0@);
                } else {
                    assert(self.code@[a].0@ != name@);
                }
            }
        }
    }

    /// The function emitted under `name`. Looking up a name that was never
    /// emitted is a fatal internal error: every reference should have been
    /// validated upstream.
    pub fn get_fn(&self, name: &Ident) -> (r: Result<&Fn, InternalError>)
        ensures
            (match r {
                Ok(f) => find_fn(self.code@, name@) == Some(*f),
                Err(e) => find_fn(self.code@, name@) is None && e
                    == InternalError::UnknownFunction(*name),
            }),
    {
        let mut i: usize = 0;
        while i < self.code.len()
            invariant
                i <= self.code@.len(),
                forall|j: int| 0 <= j < i ==> self.code@[j].0@ != name@,
            decreases self.code@.len() - i,
        {
            if self.code[i].0.same_as(name) {
                proof {
                    assert(fn_keys(self.code@)[i as int] == name@);
                    assert(forall|j: int| 0 <= j < i ==> fn_keys(self.code@)[j] != name@);
                    lemma_first_pos_found(fn_keys(self.code@), name@, i as int);
                }
                return Ok(&self.code[i].1);
            }
            i += 1;
        }
        proof {
            assert(forall|j: int|
                0 <= j < fn_keys(self.code@).len() ==> fn_keys(self.code@)[j] != name@);
            lemma_first_pos_none(fn_keys(self.code@), name@);
        }
        Err(InternalError::UnknownFunction(name.clone()))
    }

    /// The named functions, in first-emitted order.
    pub fn fns(&self) -> (r: &Vec<(Ident, Fn)>)
        ensures
            *r == self.code,
    {
        &self.code
    }
}

} // verus!
