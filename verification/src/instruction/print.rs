//! The text of an instruction, as it is shown in diagnostics: a
//! reconstruction of the source that the instruction was read from.

use super::type_instantiation::TypeInstantiation;
use super::{
    arg_views, views, BinaryOp, Block, BlockView, FunctionCall, FunctionDec, FunctionDecArg, FunctionDecArgView, Instruction, InstructionView, TypeDec, VarAssign,
};
use vstd::prelude::*;
use vstd::string::StringExecFns;

verus! {

impl FunctionDecArgView {
    /// A name, a colon and a type.
    pub open spec fn text(self) -> Seq<char> {
        self.name + ": "@ + self.ty
    }
}

/// The names and types of a list from `from` on, with a comma and a space
/// between one and the next.
pub open spec fn typed_list_text(list: Seq<FunctionDecArgView>, from: int) -> Seq<char>
    decreases list.len() - from,
{
    if 0 <= from < list.len() {
        if from + 1 < list.len() {
            list[from].text() + ", "@ + typed_list_text(list, from + 1)
        } else {
            list[from].text()
        }
    } else {
        Seq::empty()
    }
}

/// A list of names and types between parentheses.
pub open spec fn args_text(args: Seq<FunctionDecArgView>) -> Seq<char> {
    "("@ + typed_list_text(args, 0) + ")"@
}

/// The texts of the instructions of a list from `from` on, with `separator`
/// between one and the next.
pub open spec fn list_text(list: Seq<InstructionView>, from: int, separator: Seq<char>) -> Seq<
    char,
>
    decreases list, list.len() - from,
{
    if 0 <= from < list.len() {
        if from + 1 < list.len() {
            instruction_text(list[from]) + separator + list_text(list, from + 1, separator)
        } else {
            instruction_text(list[from])
        }
    } else {
        Seq::empty()
    }
}

/// The text of an instruction.
pub open spec fn instruction_text(instr: InstructionView) -> Seq<char>
    decreases instr, 0nat,
{
    match instr {
        InstructionView::Constant(c) => c.text(),
        InstructionView::Var(name) => name,
        InstructionView::VarAssign(a) => (if a.mutable {
            "mut "@
        } else {
            Seq::empty()
        }) + a.symbol + " = "@ + instruction_text(*a.value) + ";"@,
        InstructionView::FunctionCall(c) => c.name + "("@ + list_text(c.args, 0, ", "@) + ")"@,
        InstructionView::FunctionDec(f) => "func "@ + f.name + args_text(f.args) + (match f.ty {
            Some(ty) => " -> "@ + ty,
            None => Seq::empty(),
        }) + " "@ + block_text(f.block),
        InstructionView::TypeDec(t) => "type "@ + t.name + args_text(t.fields) + ";"@,
        InstructionView::TypeInstantiation(t) => t.name + "("@ + list_text(t.fields, 0, ", "@)
            + ")"@,
        InstructionView::BinaryOp(b) => "("@ + instruction_text(*b.lhs) + " "@ + seq![
            b.op.symbol(),
        ] + " "@ + instruction_text(*b.rhs) + ")"@,
        InstructionView::Block(b) => block_text(b),
    }
}

/// The text of a block: its instructions between braces, with a space
/// between one and the next.
pub open spec fn block_text(b: BlockView) -> Seq<char>
    decreases b, 1nat,
{
    "{ "@ + list_text(b.instructions, 0, " "@) + " }"@
}

/// Appends the names and types of `list`.
fn print_typed_list(list: &Vec<FunctionDecArg>, out: &mut String)
    ensures
        final(out)@ == old(out)@ + typed_list_text(arg_views(list@), 0),
{
    let ghost all = arg_views(list@);
    let ghost start = out@;
    let mut i: usize = 0;
    assert(out@ + typed_list_text(all, 0) =~= start + typed_list_text(all, 0));
    while i < list.len()
        invariant
            i <= list.len(),
            all == arg_views(list@),
            out@ + typed_list_text(all, i as int) == start + typed_list_text(all, 0),
        decreases list.len() - i,
    {
        let ghost before = out@;
        out.append(list[i].name());
        out.append(": ");
        out.append(list[i].ty());
        assert(all[i as int] == list[i as int]@);
        if i + 1 < list.len() {
            out.append(", ");
            assert(out@ + typed_list_text(all, i + 1) =~= before + typed_list_text(all, i as int));
        } else {
            assert(out@ + typed_list_text(all, i + 1) =~= before + typed_list_text(all, i as int));
        }
        i = i + 1;
    }
    assert(out@ + Seq::<char>::empty() =~= out@);
}

/// Appends a list of names and types between parentheses.
fn print_args(list: &Vec<FunctionDecArg>, out: &mut String)
    ensures
        final(out)@ == old(out)@ + args_text(arg_views(list@)),
{
    out.append("(");
    print_typed_list(list, out);
    out.append(")");
    assert(out@ =~= old(out)@ + args_text(arg_views(list@)));
}

/// Appends the texts of the instructions of `list`.
fn print_list(list: &Vec<Instruction>, separator: &str, out: &mut String)
    ensures
        final(out)@ == old(out)@ + list_text(views(list@), 0, separator@),
    decreases list,
{
    let ghost all = views(list@);
    let ghost start = out@;
    let mut i: usize = 0;
    assert(out@ + list_text(all, 0, separator@) =~= start + list_text(all, 0, separator@));
    while i < list.len()
        invariant
            i <= list.len(),
            all == views(list@),
            out@ + list_text(all, i as int, separator@) == start + list_text(all, 0, separator@),
        decreases list.len() - i,
    {
        proof {
            vstd::std_specs::vec::axiom_vec_index_decreases(*list, i as int);
        }
        let ghost before = out@;
        assert(all[i as int] == list[i as int]@);
        list[i].print_to(out);
        if i + 1 < list.len() {
            out.append(separator);
            assert(out@ + list_text(all, i + 1, separator@) =~= before + list_text(
                all,
                i as int,
                separator@,
            ));
        } else {
            assert(out@ + list_text(all, i + 1, separator@) =~= before + list_text(
                all,
                i as int,
                separator@,
            ));
        }
        i = i + 1;
    }
    assert(out@ + Seq::<char>::empty() =~= out@);
}

impl Block {
    /// Appends the text of the block to `out`.
    pub fn print_to(&self, out: &mut String)
        ensures
            final(out)@ == old(out)@ + block_text(self@),
        decreases self,
    {
        out.append("{ ");
        print_list(&self.instructions, " ", out);
        out.append(" }");
        assert(out@ =~= old(out)@ + block_text(self@));
    }
}

impl TypeInstantiation {
    /// Appends the text of the instantiation to `out`.
    pub fn print_to(&self, out: &mut String)
        ensures
            final(out)@ == old(out)@ + instruction_text(
                InstructionView::TypeInstantiation(self@),
            ),
        decreases self,
    {
        out.append(self.name.as_str());
        out.append("(");
        print_list(&self.fields, ", ", out);
        out.append(")");
        assert(out@ =~= old(out)@ + instruction_text(InstructionView::TypeInstantiation(self@)));
    }

    /// The text of the instantiation: the name of the type, and between
    /// parentheses the expressions of the fields.
    pub fn print(&self) -> (text: String)
        ensures
            text@ == instruction_text(InstructionView::TypeInstantiation(self@)),
    {
        let mut text = String::new();
        self.print_to(&mut text);
        assert(text@ =~= instruction_text(InstructionView::TypeInstantiation(self@)));
        text
    }
}

impl Instruction {
    /// Appends the text of the instruction to `out`.
    pub fn print_to(&self, out: &mut String)
        ensures
            final(out)@ == old(out)@ + instruction_text(self@),
        decreases self,
    {
        match self {
            Instruction::Constant(c) => {
                c.print_to(out);
            },
            Instruction::Var(name) => {
                out.append(name.as_str());
            },
            Instruction::VarAssign(a) => {
                if a.mutable {
                    out.append("mut ");
                }
                out.append(a.symbol.as_str());
                out.append(" = ");
                a.value.print_to(out);
                out.append(";");
                assert(out@ =~= old(out)@ + instruction_text(self@));
            },
            Instruction::FunctionCall(c) => {
                out.append(c.name.as_str());
                out.append("(");
                print_list(&c.args, ", ", out);
                out.append(")");
                assert(out@ =~= old(out)@ + instruction_text(self@));
            },
            Instruction::FunctionDec(f) => {
                out.append("func ");
                out.append(f.name.as_str());
                print_args(&f.args, out);
                match &f.ty {
                    Some(ty) => {
                        out.append(" -> ");
                        out.append(ty.id());
                    },
                    None => {},
                }
                out.append(" ");
                f.block.print_to(out);
                assert(out@ =~= old(out)@ + instruction_text(self@));
            },
            Instruction::TypeDec(t) => {
                out.append("type ");
                out.append(t.name.as_str());
                print_args(&t.fields, out);
                out.append(";");
                assert(out@ =~= old(out)@ + instruction_text(self@));
            },
            Instruction::TypeInstantiation(t) => {
                t.print_to(out);
            },
            Instruction::BinaryOp(b) => {
                out.append("(");
                b.lhs.print_to(out);
                out.append(" ");
                out.push(b.op.to_char());
                out.append(" ");
                b.rhs.print_to(out);
                out.append(")");
                assert(out@ =~= old(out)@ + instruction_text(self@));
            },
            Instruction::Block(b) => {
                b.print_to(out);
            },
        }
    }

    /// The text of the instruction.
    pub fn print(&self) -> (text: String)
        ensures
            text@ == instruction_text(self@),
    {
        let mut text = String::new();
        self.print_to(&mut text);
        assert(text@ =~= instruction_text(self@));
        text
    }
}

} // verus!
