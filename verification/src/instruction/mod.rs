//! The instructions that a program is made of.
//!
//! An instruction is one of a closed set of nodes. Each node type has a view
//! that holds the same tree over mathematical sequences; the contracts of the
//! parser and of the interpreter speak of the views.

use std::rc::Rc;
use vstd::prelude::*;

pub mod constant;
pub mod execute;
pub mod print;
pub mod type_id;
pub mod type_instantiation;

use constant::{Constant, ConstantView};
use type_id::TypeId;
use type_instantiation::{TypeInstantiation, TypeInstantiationView};

verus! {

/// A binary operator, or one of the parentheses that group operands.
#[derive(Copy, Clone, Debug, PartialEq, Eq, Structural)]
pub enum Operator {
    Add,
    Sub,
    Mul,
    Div,
    LeftParenthesis,
    RightParenthesis,
}

impl Operator {
    /// The operator that a character stands for.
    pub open spec fn spec_new(c: char) -> Option<Operator> {
        if c == '+' {
            Some(Operator::Add)
        } else if c == '-' {
            Some(Operator::Sub)
        } else if c == '*' {
            Some(Operator::Mul)
        } else if c == '/' {
            Some(Operator::Div)
        } else if c == '(' {
            Some(Operator::LeftParenthesis)
        } else if c == ')' {
            Some(Operator::RightParenthesis)
        } else {
            None
        }
    }

    /// The operator that `c` stands for, if it stands for one.
    pub fn new(c: char) -> (op: Option<Operator>)
        ensures
            op == Self::spec_new(c),
    {
        if c == '+' {
            Some(Operator::Add)
        } else if c == '-' {
            Some(Operator::Sub)
        } else if c == '*' {
            Some(Operator::Mul)
        } else if c == '/' {
            Some(Operator::Div)
        } else if c == '(' {
            Some(Operator::LeftParenthesis)
        } else if c == ')' {
            Some(Operator::RightParenthesis)
        } else {
            None
        }
    }

    /// The character that stands for the operator.
    pub open spec fn symbol(self) -> char {
        match self {
            Operator::Add => '+',
            Operator::Sub => '-',
            Operator::Mul => '*',
            Operator::Div => '/',
            Operator::LeftParenthesis => '(',
            Operator::RightParenthesis => ')',
        }
    }

    /// The character that stands for the operator.
    pub fn to_char(&self) -> (c: char)
        ensures
            c == self.symbol(),
    {
        match self {
            Operator::Add => '+',
            Operator::Sub => '-',
            Operator::Mul => '*',
            Operator::Div => '/',
            Operator::LeftParenthesis => '(',
            Operator::RightParenthesis => ')',
        }
    }

    /// How tightly the operator binds: multiplication and division bind
    /// tighter than addition and subtraction, and a parenthesis does not bind.
    pub open spec fn rank(self) -> int {
        match self {
            Operator::Mul | Operator::Div => 3,
            Operator::Add | Operator::Sub => 2,
            Operator::LeftParenthesis | Operator::RightParenthesis => 1,
        }
    }

    /// The rank of the operator among the others.
    pub fn precedence(&self) -> (rank: u8)
        ensures
            rank == self.rank(),
    {
        match self {
            Operator::Mul | Operator::Div => 3,
            Operator::Add | Operator::Sub => 2,
            Operator::LeftParenthesis | Operator::RightParenthesis => 1,
        }
    }

    /// Every operator groups from the left: `a - b - c` is `(a - b) - c`.
    pub open spec fn left_associative(self) -> bool {
        true
    }

    /// Whether operands of equal rank group from the left.
    pub fn is_left_associative(&self) -> (yes: bool)
        ensures
            yes == self.left_associative(),
    {
        true
    }
}

/// A call of a function by its name.
#[derive(Debug, PartialEq)]
pub struct FunctionCall {
    pub name: String,
    pub args: Vec<Instruction>,
}

/// An assignment of a value to a name. `mutable` speaks of the binding that
/// the assignment makes, not of the value.
#[derive(Debug, PartialEq)]
pub struct VarAssign {
    pub mutable: bool,
    pub symbol: String,
    pub value: Box<Instruction>,
}

/// Two operands and the operator between them.
#[derive(Debug, PartialEq)]
pub struct BinaryOp {
    pub lhs: Box<Instruction>,
    pub rhs: Box<Instruction>,
    pub op: Operator,
}

/// Instructions between braces, executed in a scope of their own.
#[derive(Debug, PartialEq)]
pub struct Block {
    pub instructions: Vec<Instruction>,
}

/// A name and its type: an argument of a function or a field of a type.
#[derive(Debug, PartialEq)]
pub struct FunctionDecArg {
    pub name: String,
    pub ty: TypeId,
}

/// The declaration of a function. No return type means that the function
/// returns nothing.
#[derive(Debug, PartialEq)]
pub struct FunctionDec {
    pub name: String,
    pub ty: Option<TypeId>,
    pub args: Vec<FunctionDecArg>,
    pub block: Block,
}

/// The declaration of a record type: its name and its fields in order.
#[derive(Debug, PartialEq)]
pub struct TypeDec {
    pub name: String,
    pub fields: Vec<FunctionDecArg>,
}

/// A node of a program. A declaration is shared between the program and the
/// tables that it is registered in.
#[derive(Debug, PartialEq)]
pub enum Instruction {
    Constant(Constant),
    Var(String),
    VarAssign(VarAssign),
    FunctionCall(FunctionCall),
    FunctionDec(Rc<FunctionDec>),
    TypeDec(Rc<TypeDec>),
    TypeInstantiation(TypeInstantiation),
    BinaryOp(BinaryOp),
    Block(Block),
}

pub struct FunctionCallView {
    pub name: Seq<char>,
    pub args: Seq<InstructionView>,
}

pub struct VarAssignView {
    pub mutable: bool,
    pub symbol: Seq<char>,
    pub value: Box<InstructionView>,
}

pub struct BinaryOpView {
    pub lhs: Box<InstructionView>,
    pub rhs: Box<InstructionView>,
    pub op: Operator,
}

pub struct BlockView {
    pub instructions: Seq<InstructionView>,
}

pub struct FunctionDecArgView {
    pub name: Seq<char>,
    pub ty: Seq<char>,
}

pub struct FunctionDecView {
    pub name: Seq<char>,
    pub ty: Option<Seq<char>>,
    pub args: Seq<FunctionDecArgView>,
    pub block: BlockView,
}

pub struct TypeDecView {
    pub name: Seq<char>,
    pub fields: Seq<FunctionDecArgView>,
}

/// An instruction over mathematical sequences.
pub enum InstructionView {
    Constant(ConstantView),
    Var(Seq<char>),
    VarAssign(VarAssignView),
    FunctionCall(FunctionCallView),
    FunctionDec(FunctionDecView),
    TypeDec(TypeDecView),
    TypeInstantiation(TypeInstantiationView),
    BinaryOp(BinaryOpView),
    Block(BlockView),
}

/// The views of the instructions of a list, in order.
pub open spec fn views(list: Seq<Instruction>) -> Seq<InstructionView>
    decreases list,
{
    Seq::new(
        list.len(),
        |i: int|
            if 0 <= i < list.len() {
                list[i].model()
            } else {
                arbitrary()
            },
    )
}

/// The views of the names and types of a list, in order.
pub open spec fn arg_views(list: Seq<FunctionDecArg>) -> Seq<FunctionDecArgView> {
    Seq::new(list.len(), |i: int| list[i]@)
}

impl Instruction {
    pub open spec fn model(&self) -> InstructionView
        decreases self,
    {
        match self {
            Instruction::Constant(c) => InstructionView::Constant(c@),
            Instruction::Var(name) => InstructionView::Var(name@),
            Instruction::VarAssign(a) => InstructionView::VarAssign(a.model()),
            Instruction::FunctionCall(c) => InstructionView::FunctionCall(c.model()),
            Instruction::FunctionDec(f) => InstructionView::FunctionDec(f.model()),
            Instruction::TypeDec(t) => InstructionView::TypeDec(t@),
            Instruction::TypeInstantiation(t) => InstructionView::TypeInstantiation(t.model()),
            Instruction::BinaryOp(b) => InstructionView::BinaryOp(b.model()),
            Instruction::Block(b) => InstructionView::Block(b.model()),
        }
    }
}

impl FunctionCall {
    pub open spec fn model(&self) -> FunctionCallView
        decreases self,
    {
        FunctionCallView { name: self.name@, args: views(self.args@) }
    }
}

impl VarAssign {
    pub open spec fn model(&self) -> VarAssignView
        decreases self,
    {
        VarAssignView {
            mutable: self.mutable,
            symbol: self.symbol@,
            value: Box::new(self.value.model()),
        }
    }
}

impl BinaryOp {
    pub open spec fn model(&self) -> BinaryOpView
        decreases self,
    {
        BinaryOpView {
            lhs: Box::new(self.lhs.model()),
            rhs: Box::new(self.rhs.model()),
            op: self.op,
        }
    }
}

impl Block {
    pub open spec fn model(&self) -> BlockView
        decreases self,
    {
        BlockView { instructions: views(self.instructions@) }
    }
}

impl FunctionDec {
    pub open spec fn model(&self) -> FunctionDecView
        decreases self,
    {
        FunctionDecView {
            name: self.name@,
            ty: match self.ty {
                Some(ty) => Some(ty@),
                None => None,
            },
            args: arg_views(self.args@),
            block: self.block.model(),
        }
    }
}

impl TypeInstantiation {
    pub open spec fn model(&self) -> TypeInstantiationView
        decreases self,
    {
        TypeInstantiationView { name: self.name@, fields: views(self.fields@) }
    }
}

impl View for Instruction {
    type V = InstructionView;

    open spec fn view(&self) -> InstructionView {
        self.model()
    }
}

impl View for FunctionCall {
    type V = FunctionCallView;

    open spec fn view(&self) -> FunctionCallView {
        self.model()
    }
}

impl View for VarAssign {
    type V = VarAssignView;

    open spec fn view(&self) -> VarAssignView {
        self.model()
    }
}

impl View for BinaryOp {
    type V = BinaryOpView;

    open spec fn view(&self) -> BinaryOpView {
        self.model()
    }
}

impl View for Block {
    type V = BlockView;

    open spec fn view(&self) -> BlockView {
        self.model()
    }
}

impl View for FunctionDec {
    type V = FunctionDecView;

    open spec fn view(&self) -> FunctionDecView {
        self.model()
    }
}

impl View for TypeInstantiation {
    type V = TypeInstantiationView;

    open spec fn view(&self) -> TypeInstantiationView {
        self.model()
    }
}

impl View for FunctionDecArg {
    type V = FunctionDecArgView;

    open spec fn view(&self) -> FunctionDecArgView {
        FunctionDecArgView { name: self.name@, ty: self.ty@ }
    }
}

impl View for TypeDec {
    type V = TypeDecView;

    open spec fn view(&self) -> TypeDecView {
        TypeDecView { name: self.name@, fields: arg_views(self.fields@) }
    }
}

impl FunctionCall {
    /// A call of `name` without arguments.
    pub fn new(name: String) -> (call: FunctionCall)
        ensures
            call@ == (FunctionCallView { name: name@, args: Seq::<InstructionView>::empty() }),
    {
        let call = FunctionCall { name, args: Vec::new() };
        assert(views(call.args@) =~= Seq::<InstructionView>::empty());
        call
    }

    /// Adds the next argument.
    pub fn add_arg(&mut self, arg: Instruction)
        ensures
            final(self)@ == (FunctionCallView { args: old(self)@.args.push(arg@), ..old(self)@ }),
    {
        proof {
            lemma_views_push(self.args@, arg);
        }
        self.args.push(arg);
    }

    /// The name of the function that is called.
    pub fn name(&self) -> (name: &str)
        ensures
            name@ == self@.name,
    {
        self.name.as_str()
    }

    /// The arguments, in order.
    pub fn args(&self) -> (args: &Vec<Instruction>)
        ensures
            views(args@) == self@.args,
    {
        &self.args
    }
}

impl VarAssign {
    pub fn new(mutable: bool, symbol: String, value: Instruction) -> (assign: VarAssign)
        ensures
            assign@ == (VarAssignView { mutable, symbol: symbol@, value: Box::new(value@) }),
    {
        VarAssign { mutable, symbol, value: Box::new(value) }
    }

    /// Whether the binding can be given another value later.
    pub fn mutable(&self) -> (mutable: bool)
        ensures
            mutable == self@.mutable,
    {
        self.mutable
    }

    /// The name that is bound.
    pub fn symbol(&self) -> (symbol: &str)
        ensures
            symbol@ == self@.symbol,
    {
        self.symbol.as_str()
    }

    /// The expression of the value.
    pub fn value(&self) -> (value: &Instruction)
        ensures
            value@ == *self@.value,
    {
        &*self.value
    }
}

impl BinaryOp {
    pub fn new(lhs: Instruction, rhs: Instruction, op: Operator) -> (node: BinaryOp)
        ensures
            node@ == (BinaryOpView { lhs: Box::new(lhs@), rhs: Box::new(rhs@), op }),
    {
        BinaryOp { lhs: Box::new(lhs), rhs: Box::new(rhs), op }
    }

    /// The left operand.
    pub fn lhs(&self) -> (lhs: &Instruction)
        ensures
            lhs@ == *self@.lhs,
    {
        &*self.lhs
    }

    /// The right operand.
    pub fn rhs(&self) -> (rhs: &Instruction)
        ensures
            rhs@ == *self@.rhs,
    {
        &*self.rhs
    }

    pub fn operator(&self) -> (op: Operator)
        ensures
            op == self@.op,
    {
        self.op
    }
}

impl Block {
    /// A block without instructions.
    pub fn new() -> (block: Block)
        ensures
            block@ == (BlockView { instructions: Seq::<InstructionView>::empty() }),
    {
        let block = Block { instructions: Vec::new() };
        assert(views(block.instructions@) =~= Seq::<InstructionView>::empty());
        block
    }

    /// Adds the next instruction.
    pub fn add_instruction(&mut self, instruction: Instruction)
        ensures
            final(self)@ == (BlockView { instructions: old(self)@.instructions.push(instruction@) }),
    {
        proof {
            lemma_views_push(self.instructions@, instruction);
        }
        self.instructions.push(instruction);
    }

    /// The instructions, in order.
    pub fn instructions(&self) -> (instructions: &Vec<Instruction>)
        ensures
            views(instructions@) == self@.instructions,
    {
        &self.instructions
    }
}

impl FunctionDec {
    /// The declaration of `name`, which returns a value of type `ty` or
    /// nothing, with no argument and an empty body.
    pub fn new(name: String, ty: Option<String>) -> (dec: FunctionDec)
        ensures
            dec@ == (FunctionDecView {
                name: name@,
                ty: match ty {
                    Some(ty) => Some(ty@),
                    None => None,
                },
                args: Seq::<FunctionDecArgView>::empty(),
                block: BlockView { instructions: Seq::<InstructionView>::empty() },
            }),
    {
        let ty = match ty {
            Some(ty) => Some(TypeId::new(ty)),
            None => None,
        };
        let dec = FunctionDec { name, ty, args: Vec::new(), block: Block::new() };
        assert(arg_views(dec.args@) =~= Seq::<FunctionDecArgView>::empty());
        dec
    }

    /// Replaces the arguments.
    pub fn set_args(&mut self, args: Vec<FunctionDecArg>)
        ensures
            final(self)@ == (FunctionDecView { args: arg_views(args@), ..old(self)@ }),
    {
        self.args = args;
    }

    /// Replaces the body.
    pub fn set_block(&mut self, block: Block)
        ensures
            final(self)@ == (FunctionDecView { block: block@, ..old(self)@ }),
    {
        self.block = block;
    }

    pub fn name(&self) -> (name: &str)
        ensures
            name@ == self@.name,
    {
        self.name.as_str()
    }

    /// The arguments, in order.
    pub fn args(&self) -> (args: &Vec<FunctionDecArg>)
        ensures
            arg_views(args@) == self@.args,
    {
        &self.args
    }

    /// The body.
    pub fn block(&self) -> (block: &Block)
        ensures
            block@ == self@.block,
    {
        &self.block
    }
}

impl FunctionDecArg {
    pub fn new(name: String, ty: String) -> (arg: FunctionDecArg)
        ensures
            arg@ == (FunctionDecArgView { name: name@, ty: ty@ }),
    {
        FunctionDecArg { name, ty: TypeId::new(ty) }
    }

    pub fn name(&self) -> (name: &str)
        ensures
            name@ == self@.name,
    {
        self.name.as_str()
    }

    /// The name of the type.
    pub fn ty(&self) -> (ty: &str)
        ensures
            ty@ == self@.ty,
    {
        self.ty.id()
    }
}

/// `Rc`'s `clone`: another handle on the same value.
#[verifier::external_body]
pub(crate) fn share<T>(shared: &Rc<T>) -> (handle: Rc<T>)
    ensures
        handle == *shared,
{
    Rc::clone(shared)
}

/// A list that gains an instruction gains its view.
pub proof fn lemma_views_push(list: Seq<Instruction>, last: Instruction)
    ensures
        views(list.push(last)) == views(list).push(last@),
{
    assert(views(list.push(last)) =~= views(list).push(last@));
}

/// A list that gains a name and its type gains their view.
pub proof fn lemma_arg_views_push(list: Seq<FunctionDecArg>, last: FunctionDecArg)
    ensures
        arg_views(list.push(last)) == arg_views(list).push(last@),
{
    assert(arg_views(list.push(last)) =~= arg_views(list).push(last@));
}

} // verus!
