//! The laws this layer promises, stated over the specification functions
//! that the executable contracts use.

use vstd::prelude::*;

use crate::assembly::{
    argument_registers, is_inplace_mnemonic, is_inputs_only_mnemonic, registers_of, spec_inputs,
    spec_inputs_only, spec_outputs, Argument, Instruction, Register,
};
use crate::machine::OperandSize;
use crate::render::{spec_indirect_parts, spec_render_argument, spec_render_register};
use crate::text::{decimal_int, decimal_nat, join_with};

verus! {

/// The three semantic classes name no common mnemonic: an in-place
/// mnemonic is neither inputs-only nor the memory-sensitive `mov`, and
/// `mov` itself is in neither fixed set.
pub proof fn lemma_mnemonic_classes_disjoint(m: Seq<char>)
    ensures
        is_inplace_mnemonic(m) ==> !is_inputs_only_mnemonic(m),
        is_inplace_mnemonic(m) ==> m != "mov"@,
        m == "mov"@ ==> !is_inputs_only_mnemonic(m),
{
    reveal_strlit("add");
    reveal_strlit("sub");
    reveal_strlit("and");
    reveal_strlit("or");
    reveal_strlit("xor");
    reveal_strlit("sal");
    reveal_strlit("sar");
    reveal_strlit("idiv");
    reveal_strlit("neg");
    reveal_strlit("not");
    reveal_strlit("test");
    reveal_strlit("cmp");
    reveal_strlit("push");
    reveal_strlit("mov");
    assert("add"@.len() == 3 && "add"@[0] == 'a');
    assert("sub"@.len() == 3 && "sub"@[0] == 's');
    assert("and"@.len() == 3 && "and"@[0] == 'a');
    assert("or"@.len() == 2 && "or"@[0] == 'o');
    assert("xor"@.len() == 3 && "xor"@[0] == 'x');
    assert("sal"@.len() == 3 && "sal"@[0] == 's');
    assert("sar"@.len() == 3 && "sar"@[0] == 's');
    assert("idiv"@.len() == 4 && "idiv"@[0] == 'i');
    assert("neg"@.len() == 3 && "neg"@[0] == 'n');
    assert("not"@.len() == 3 && "not"@[0] == 'n');
    assert("test"@.len() == 4 && "test"@[0] == 't');
    assert("cmp"@.len() == 3 && "cmp"@[0] == 'c');
    assert("push"@.len() == 4 && "push"@[0] == 'p');
    assert("mov"@.len() == 3 && "mov"@[0] == 'm');
}

/// An instruction built from an in-place mnemonic whose first operand is
/// the register `r` writes exactly `r` and reads the registers of all its
/// operands, the first included.
pub proof fn lemma_inplace_reads_and_writes_first(i: Instruction, r: Register)
    requires
        is_inplace_mnemonic(i.mnemonic@),
        i.args@.len() > 0,
        i.args@[0] == Argument::Register(r),
    ensures
        spec_outputs(i) == seq![r],
        spec_inputs(i) == registers_of(i.args@),
{
    lemma_mnemonic_classes_disjoint(i.mnemonic@);
    assert(!spec_inputs_only(i));
    assert(spec_outputs(i) =~= seq![r]);
}

/// An instruction built from an inputs-only mnemonic writes no register
/// and reads the registers of all its operands.
pub proof fn lemma_inputs_only_reads_all(i: Instruction)
    requires
        is_inputs_only_mnemonic(i.mnemonic@),
    ensures
        spec_outputs(i) == Seq::<Register>::empty(),
        spec_inputs(i) == registers_of(i.args@),
{
    if i.args@.len() == 0 {
        assert(registers_of(i.args@) == Seq::<Register>::empty());
    }
}

/// Addressing registers are always reads: an instruction whose first
/// operand is an indirect memory reference writes no register operand,
/// whatever its mnemonic.
pub proof fn lemma_indirect_destination_writes_nothing(i: Instruction)
    requires
        i.args@.len() > 0,
        i.args@[0] is Indirect,
    ensures
        spec_outputs(i) == Seq::<Register>::empty(),
{
}

/// A `mov` whose destination is an indirect reference based on register
/// `base` writes memory, not a register operand: it is treated as
/// inputs-only, reading `base` and the source register and writing
/// nothing.
pub proof fn lemma_mov_into_memory_reads_all(
    i: Instruction,
    base: Register,
    src: Register,
    size: Option<OperandSize>,
    disp: Option<i32>,
)
    requires
        i.mnemonic@ == "mov"@,
        i.args@.len() == 2,
        i.args@[0] == (Argument::Indirect { size, base: Some(base), index: None, disp }),
        i.args@[1] == Argument::Register(src),
    ensures
        spec_outputs(i) == Seq::<Register>::empty(),
        spec_inputs(i) == seq![base, src],
{
    assert(spec_inputs_only(i));
    let both = i.args@;
    let front = both.drop_last();
    assert(front =~= both.take(1));
    assert(front.drop_last() =~= Seq::<Argument>::empty());
    assert(registers_of(Seq::<Argument>::empty()) == Seq::<Register>::empty());
    assert(argument_registers(both[0]) =~= seq![base]);
    assert(registers_of(front) =~= seq![base]);
    assert(both.last() == both[1]);
    assert(spec_inputs(i) =~= seq![base, src]);
}

/// A `mov` whose destination is a register operand writes exactly that
/// register and reads exactly its source register.
pub proof fn lemma_mov_into_register(i: Instruction, dst: Register, src: Register)
    requires
        i.mnemonic@ == "mov"@,
        i.args@.len() == 2,
        i.args@[0] == Argument::Register(dst),
        i.args@[1] == Argument::Register(src),
    ensures
        spec_outputs(i) == seq![dst],
        spec_inputs(i) == seq![src],
{
    lemma_mnemonic_classes_disjoint(i.mnemonic@);
    assert(!spec_inputs_only(i));
    assert(spec_outputs(i) =~= seq![dst]);
    assert(registers_of(Seq::<Argument>::empty()) == Seq::<Register>::empty());
    let rest = i.args@.skip(1);
    assert(rest.drop_last() =~= Seq::<Argument>::empty());
    assert(rest.last() == i.args@[1]);
    assert(spec_inputs(i) =~= seq![src]);
}

/// An indirect operand with only a base register renders as that register
/// inside brackets, with no separator and no width keyword.
pub proof fn lemma_indirect_base_only_rendering(r: Register)
    ensures
        spec_render_argument(
            Argument::Indirect { size: None, base: Some(r), index: None, disp: None },
        ) == "["@ + spec_render_register(r) + "]"@,
{
    let parts = spec_indirect_parts(Some(r), None, None);
    assert(parts =~= seq![spec_render_register(r)]);
    assert(join_with(parts, " + "@) == spec_render_register(r));
    assert(spec_render_argument(
        Argument::Indirect { size: None, base: Some(r), index: None, disp: None },
    ) =~= "["@ + spec_render_register(r) + "]"@);
}

/// With base, index and displacement all present, the three components
/// stand inside the brackets joined by `" + "`, in that fixed order.
pub proof fn lemma_indirect_full_rendering(b: Register, x: Register, scale: u32, d: i32)
    ensures
        spec_render_argument(
            Argument::Indirect {
                size: None,
                base: Some(b),
                index: Some((x, scale)),
                disp: Some(d),
            },
        ) == "["@ + spec_render_register(b) + " + "@ + spec_render_register(x) + " * "@
            + decimal_nat(scale as nat) + " + "@ + decimal_int(d as int) + "]"@,
{
    let base_text = spec_render_register(b);
    let index_text = spec_render_register(x) + " * "@ + decimal_nat(scale as nat);
    let disp_text = decimal_int(d as int);
    let parts = spec_indirect_parts(Some(b), Some((x, scale)), Some(d));
    assert(parts =~= seq![base_text, index_text, disp_text]);
    let two = seq![base_text, index_text];
    assert(parts.drop_last() =~= two);
    assert(parts.last() == disp_text);
    assert(two.drop_last() =~= seq![base_text]);
    assert(two.last() == index_text);
    assert(join_with(seq![base_text], " + "@) == base_text);
    assert(join_with(two, " + "@) == base_text + " + "@ + index_text);
    assert(join_with(parts, " + "@) == base_text + " + "@ + index_text + " + "@ + disp_text);
    assert(spec_render_argument(
        Argument::Indirect { size: None, base: Some(b), index: Some((x, scale)), disp: Some(d) },
    ) =~= "["@ + base_text + " + "@ + index_text + " + "@ + disp_text + "]"@);
}

} // verus!
