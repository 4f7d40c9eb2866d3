//! Rendering the assembly model to Intel-syntax text.
//!
//! The exact bytes matter: a downstream assembler consumes this output.
//! The layout is one syntax-mode directive, then — only when data lines
//! exist — a data section header, an alignment directive, the data lines
//! verbatim and a blank separator, then the text section header and every
//! function's blocks in first-emitted order, one line per directive or
//! instruction and a blank line after each block.

use vstd::prelude::*;

use crate::assembly::{Argument, Assembly, AssemblyLine, Block, Fn, Instruction, Register};
use crate::ident::Ident;
use crate::machine::{machine_register_name, OperandSize};
use crate::text::{
    append_decimal_i64, append_decimal_u64, append_joined, decimal_int, decimal_nat, join_with,
};

verus! {

/// The width keyword written ahead of an indirect operand, with its
/// trailing blank; absent when no width was given.
pub open spec fn spec_size_prefix(s: Option<OperandSize>) -> Seq<char> {
    match s {
        None => Seq::empty(),
        Some(OperandSize::Byte) => "byte ptr "@,
        Some(OperandSize::Word) => "word ptr "@,
        Some(OperandSize::DWord) => "dword ptr "@,
        Some(OperandSize::QWord) => "qword ptr "@,
    }
}

/// A machine register renders as its canonical name, a virtual register
/// as `%` followed by its name.
pub open spec fn spec_render_register(r: Register) -> Seq<char> {
    match r {
        Register::Machine(m) => machine_register_name(m),
        Register::Virtual(id) => "%"@ + id@,
    }
}

/// The present components of an indirect operand, in the fixed order
/// base, `index * scale`, displacement; absent components are omitted
/// entirely.
pub open spec fn spec_indirect_parts(
    base: Option<Register>,
    index: Option<(Register, u32)>,
    disp: Option<i32>,
) -> Seq<Seq<char>> {
    (match base {
        Some(r) => seq![spec_render_register(r)],
        None => Seq::empty(),
    }) + (match index {
        Some((r, scale)) => seq![spec_render_register(r) + " * "@ + decimal_nat(scale as nat)],
        None => Seq::empty(),
    }) + (match disp {
        Some(d) => seq![decimal_int(d as int)],
        None => Seq::empty(),
    })
}

/// How one operand renders.
pub open spec fn spec_render_argument(a: Argument) -> Seq<char> {
    match a {
        Argument::Immediate(v) => decimal_int(v as int),
        Argument::Address(id) => id@,
        Argument::Label(id) => id@,
        Argument::Register(r) => spec_render_register(r),
        Argument::StackSlot(id) => "{"@ + id@ + "}"@,
        Argument::Indirect { size, base, index, disp } => spec_size_prefix(size) + "["@
            + join_with(spec_indirect_parts(base, index, disp), " + "@) + "]"@,
    }
}

/// How one instruction renders: the mnemonic, then — when there are
/// operands — one blank and the operands joined by comma-blank.
pub open spec fn spec_render_instruction(i: Instruction) -> Seq<char> {
    if i.args@.len() == 0 {
        i.mnemonic@
    } else {
        i.mnemonic@ + " "@ + join_with(
            i.args@.map_values(|a: Argument| spec_render_argument(a)),
            ", "@,
        )
    }
}

/// How one line renders: directives verbatim, instructions indented by
/// four blanks.
pub open spec fn spec_render_line(l: AssemblyLine) -> Seq<char> {
    match l {
        AssemblyLine::Directive(d) => d@,
        AssemblyLine::Instruction(i) => "    "@ + spec_render_instruction(i),
    }
}

/// The lines of a block, each closed by a newline.
pub open spec fn spec_render_lines(lines: Seq<AssemblyLine>) -> Seq<char>
    decreases lines.len(),
{
    if lines.len() == 0 {
        Seq::empty()
    } else {
        spec_render_lines(lines.drop_last()) + spec_render_line(lines.last()) + "\n"@
    }
}

/// How a block renders: its lines in emission order. The label itself is
/// not written here; a label line, where wanted, is a directive.
pub open spec fn spec_render_block(b: Block) -> Seq<char> {
    spec_render_lines(b.lines@)
}

/// The blocks of one function, in emission order, a blank line closing
/// each block (the block's own text already ends every line with a
/// newline, and one more follows it).
pub open spec fn spec_render_blocks(blocks: Seq<Block>) -> Seq<char>
    decreases blocks.len(),
{
    if blocks.len() == 0 {
        Seq::empty()
    } else {
        spec_render_blocks(blocks.drop_last()) + spec_render_block(blocks.last()) + "\n"@
    }
}

/// Every function's blocks, functions in first-emitted order.
pub open spec fn spec_render_fns(code: Seq<(Ident, Fn)>) -> Seq<char>
    decreases code.len(),
{
    if code.len() == 0 {
        Seq::empty()
    } else {
        spec_render_fns(code.drop_last()) + spec_render_blocks(code.last().1.code@)
    }
}

/// The data lines, each closed by a newline.
pub open spec fn spec_render_data(data: Seq<String>) -> Seq<char>
    decreases data.len(),
{
    if data.len() == 0 {
        Seq::empty()
    } else {
        spec_render_data(data.drop_last()) + data.last()@ + "\n"@
    }
}

/// How a whole assembly renders.
pub open spec fn spec_render_assembly(a: Assembly) -> Seq<char> {
    ".intel_syntax noprefix\n"@ + (if a.data@.len() > 0 {
        "\n.data\n.align 4\n"@ + spec_render_data(a.data@) + "\n"@
    } else {
        Seq::empty()
    }) + ".text\n"@ + spec_render_fns(a.code@)
}

fn append_register(out: &mut String, r: &Register)
    ensures
        final(out)@ == old(out)@ + spec_render_register(*r),
{
    match r {
        Register::Machine(m) => {
            out.append(m.name());
        },
        Register::Virtual(id) => {
            out.append("%");
            out.append(id.as_str());
            proof {
                assert(out@ =~= old(out)@ + spec_render_register(*r));
            }
        },
    }
}

fn append_argument(out: &mut String, a: &Argument)
    ensures
        final(out)@ == old(out)@ + spec_render_argument(*a),
{
    match a {
        Argument::Immediate(v) => {
            append_decimal_i64(out, *v);
        },
        Argument::Address(id) => {
            out.append(id.as_str());
        },
        Argument::Label(id) => {
            out.append(id.as_str());
        },
        Argument::Register(r) => {
            append_register(out, r);
        },
        Argument::StackSlot(id) => {
            out.append("{");
            out.append(id.as_str());
            out.append("}");
            proof {
                assert(out@ =~= old(out)@ + spec_render_argument(*a));
            }
        },
        Argument::Indirect { size, base, index, disp } => {
            match size {
                None => {},
                Some(OperandSize::Byte) => out.append("byte ptr "),
                Some(OperandSize::Word) => out.append("word ptr "),
                Some(OperandSize::DWord) => out.append("dword ptr "),
                Some(OperandSize::QWord) => out.append("qword ptr "),
            }
            out.append("[");
            let mut parts: Vec<String> = Vec::new();
            if let Some(r) = base {
                let mut piece = String::new();
                append_register(&mut piece, r);
                parts.push(piece);
            }
            if let Some((r, scale)) = index {
                let mut piece = String::new();
                append_register(&mut piece, r);
                piece.append(" * ");
                append_decimal_u64(&mut piece, *scale as u64);
                parts.push(piece);
            }
            if let Some(d) = disp {
                let mut piece = String::new();
                append_decimal_i64(&mut piece, *d as i64);
                parts.push(piece);
            }
            proof {
                assert(parts@.map_values(|p: String| p@) =~= spec_indirect_parts(
                    *base,
                    *index,
                    *disp,
                ));
            }
            append_joined(out, &parts, " + ");
            out.append("]");
            proof {
                assert(out@ =~= old(out)@ + spec_render_argument(*a));
            }
        },
    }
}

fn render_arguments(args: &Vec<Argument>) -> (r: Vec<String>)
    ensures
        r@.map_values(|p: String| p@) == args@.map_values(|a: Argument| spec_render_argument(a)),
{
    let mut out: Vec<String> = Vec::new();
    let mut i: usize = 0;
    while i < args.len()
        invariant
            i <= args@.len(),
            out@.map_values(|p: String| p@) == args@.take(i as int).map_values(
                |a: Argument| spec_render_argument(a),
            ),
        decreases args@.len() - i,
    {
        let mut piece = String::new();
        append_argument(&mut piece, &args[i]);
        let ghost before = out@;
        out.push(piece);
        proof {
            let done = args@.take(i as int).map_values(|a: Argument| spec_render_argument(a));
            let next = args@.take(i + 1 as int).map_values(
                |a: Argument| spec_render_argument(a),
            );
            assert(before.map_values(|p: String| p@) == done);
            assert(before.map_values(|p: String| p@).len() == before.len());
            assert(before.len() == i as int);
            assert(out@ == before.push(piece));
            assert forall|j: int| 0 <= j <= i implies out@.map_values(|p: String| p@)[j]
                == next[j] by {
                assert(next[j] == spec_render_argument(args@.take(i + 1 as int)[j]));
                if j < i {
                    assert(out@[j] == before[j]);
                    assert(before.map_values(|p: String| p@)[j] == done[j]);
                    assert(args@.take(i + 1 as int)[j] == args@.take(i as int)[j]);
                } else {
                    assert(out@[j] == piece);
                }
            }
            assert(out@.map_values(|p: String| p@) =~= next);
        }
        i += 1;
    }
    proof {
        assert(args@.take(args@.len() as int) =~= args@);
        assert(out@.map_values(|p: String| p@) =~= args@.map_values(
            |a: Argument| spec_render_argument(a),
        ));
    }
    out
}

fn append_instruction(out: &mut String, i: &Instruction)
    ensures
        final(out)@ == old(out)@ + spec_render_instruction(*i),
{
    out.append(i.mnemonic.as_str());
    if i.args.len() > 0 {
        out.append(" ");
        let parts = render_arguments(&i.args);
        append_joined(out, &parts, ", ");
        proof {
            assert(out@ =~= old(out)@ + spec_render_instruction(*i));
        }
    }
}

fn append_line(out: &mut String, l: &AssemblyLine)
    ensures
        final(out)@ == old(out)@ + spec_render_line(*l),
{
    match l {
        AssemblyLine::Directive(d) => {
            out.append(d.as_str());
        },
        AssemblyLine::Instruction(i) => {
            out.append("    ");
            append_instruction(out, i);
            proof {
                assert(out@ =~= old(out)@ + spec_render_line(*l));
            }
        },
    }
}

fn append_block(out: &mut String, b: &Block)
    ensures
        final(out)@ == old(out)@ + spec_render_block(*b),
{
    let mut i: usize = 0;
    while i < b.lines.len()
        invariant
            i <= b.lines@.len(),
            out@ == old(out)@ + spec_render_lines(b.lines@.take(i as int)),
        decreases b.lines@.len() - i,
    {
        append_line(out, &b.lines[i]);
        out.append("\n");
        proof {
            assert(b.lines@.take(i + 1 as int).drop_last() =~= b.lines@.take(i as int));
            assert(out@ =~= old(out)@ + spec_render_lines(b.lines@.take(i + 1 as int)));
        }
        i += 1;
    }
    proof {
        assert(b.lines@.take(b.lines@.len() as int) =~= b.lines@);
    }
}

fn append_fn_blocks(out: &mut String, f: &Fn)
    ensures
        final(out)@ == old(out)@ + spec_render_blocks(f.code@),
{
    let mut i: usize = 0;
    while i < f.code.len()
        invariant
            i <= f.code@.len(),
            out@ == old(out)@ + spec_render_blocks(f.code@.take(i as int)),
        decreases f.code@.len() - i,
    {
        append_block(out, &f.code[i]);
        out.append("\n");
        proof {
            assert(f.code@.take(i + 1 as int).drop_last() =~= f.code@.take(i as int));
            assert(out@ =~= old(out)@ + spec_render_blocks(f.code@.take(i + 1 as int)));
        }
        i += 1;
    }
    proof {
        assert(f.code@.take(f.code@.len() as int) =~= f.code@);
    }
}

impl Register {
    /// This register as rendering writes it.
    pub fn render(&self) -> (r: String)
        ensures
            r@ == spec_render_register(*self),
    {
        let mut out = String::new();
        append_register(&mut out, self);
        out
    }
}

impl Argument {
    /// This operand as rendering writes it.
    pub fn render(&self) -> (r: String)
        ensures
            r@ == spec_render_argument(*self),
    {
        let mut out = String::new();
        append_argument(&mut out, self);
        out
    }
}

impl Instruction {
    /// This instruction as rendering writes it, without indentation.
    pub fn render(&self) -> (r: String)
        ensures
            r@ == spec_render_instruction(*self),
    {
        let mut out = String::new();
        append_instruction(&mut out, self);
        out
    }
}

impl AssemblyLine {
    /// This line as rendering writes it, without the closing newline.
    pub fn render(&self) -> (r: String)
        ensures
            r@ == spec_render_line(*self),
    {
        let mut out = String::new();
        append_line(&mut out, self);
        out
    }
}

impl Block {
    /// This block's lines, each closed by a newline.
    pub fn render(&self) -> (r: String)
        ensures
            r@ == spec_render_block(*self),
    {
        let mut out = String::new();
        append_block(&mut out, self);
        out
    }
}

impl Assembly {
    /// The whole unit as assembler input.
    pub fn render(&self) -> (r: String)
        ensures
            r@ == spec_render_assembly(*self),
    {
        let mut out = String::new();
        out.append(".intel_syntax noprefix\n");
        let ghost mark_syntax = out@;
        if self.data.len() > 0 {
            out.append("\n.data\n.align 4\n");
            let ghost mark_data = out@;
            let mut i: usize = 0;
            while i < self.data.len()
                invariant
                    i <= self.data@.len(),
                    out@ == mark_data + spec_render_data(self.data@.take(i as int)),
                decreases self.data@.len() - i,
            {
                out.append(self.data[i].as_str());
                out.append("\n");
                proof {
                    assert(self.data@.take(i + 1 as int).drop_last() =~= self.data@.take(
                        i as int,
                    ));
                    assert(out@ =~= mark_data + spec_render_data(self.data@.take(i + 1 as int)));
                }
                i += 1;
            }
            out.append("\n");
            proof {
                assert(self.data@.take(self.data@.len() as int) =~= self.data@);
            }
        }
        out.append(".text\n");
        let ghost mark_text = out@;
        let mut k: usize = 0;
        while k < self.code.len()
            invariant
                k <= self.code@.len(),
                out@ == mark_text + spec_render_fns(self.code@.take(k as int)),
            decreases self.code@.len() - k,
        {
            append_fn_blocks(&mut out, &self.code[k].1);
            proof {
                assert(self.code@.take(k + 1 as int).drop_last() =~= self.code@.take(k as int));
                assert(out@ =~= mark_text + spec_render_fns(self.code@.take(k + 1 as int)));
            }
            k += 1;
        }
        proof {
            assert(self.code@.take(self.code@.len() as int) =~= self.code@);
            assert(out@ =~= spec_render_assembly(*self));
        }
        out
    }
}

} // verus!
