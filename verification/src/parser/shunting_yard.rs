//! The expression parser: operands and operators are read one after the
//! other and combined, by the precedence of the operators, into one tree.
//!
//! The parser keeps two stacks: the operators that wait for their right
//! operand, and the operands and sub-expressions that have been built. Both
//! are stated here as sequences whose last element is the top of the stack.

use super::constructs::Construct;
use super::tokens::Token;
use super::{found_in, found_view_at, rest_of, ParseError, ParseErrorKind, Parsed};
use crate::instruction::{
    lemma_views_push, views, BinaryOp, BinaryOpView, Instruction, InstructionView, Operator,
};
use crate::text::to_chars;
use vstd::prelude::*;

verus! {

/// The two stacks of the expression parser.
pub struct ShuntingYard {
    operators: Vec<Operator>,
    output: Vec<Instruction>,
}

/// The two stacks, over mathematical sequences.
pub struct YardView {
    pub operators: Seq<Operator>,
    pub output: Seq<InstructionView>,
}

impl View for ShuntingYard {
    type V = YardView;

    closed spec fn view(&self) -> YardView {
        YardView { operators: self.operators@, output: views(self.output@) }
    }
}

/// What reading one token gives: the stacks after it and the text left, or
/// `None` where the text does not start with a token.
pub type Step = Result<Option<(YardView, Seq<char>)>, ParseError>;

/// A list without its last instruction loses the view of that instruction.
pub proof fn lemma_views_drop_last(list: Seq<Instruction>)
    requires
        list.len() > 0,
    ensures
        views(list.drop_last()) == views(list).drop_last(),
        views(list).last() == list.last()@,
{
    assert(views(list.drop_last()) =~= views(list).drop_last());
}

impl YardView {
    /// Two empty stacks.
    pub open spec fn empty() -> YardView {
        YardView { operators: Seq::empty(), output: Seq::empty() }
    }

    /// The stacks with `op` on top of the operators.
    pub open spec fn with_operator(self, op: Operator) -> YardView {
        YardView { operators: self.operators.push(op), ..self }
    }

    /// The stacks with `node` on top of the output.
    pub open spec fn with_output(self, node: InstructionView) -> YardView {
        YardView { output: self.output.push(node), ..self }
    }

    /// One reduction: the top operator and the two top nodes of the output
    /// leave the stacks, and the operation that they make is put on the
    /// output. The node that was on top is the right operand. Where an
    /// operator or one of the two nodes is missing, the expression is
    /// malformed, and another rule may be tried.
    pub open spec fn reduce(self) -> Result<YardView, ParseError> {
        if self.output.len() >= 2 && self.operators.len() >= 1 {
            let n = self.output.len() as int;
            Ok(
                YardView {
                    operators: self.operators.drop_last(),
                    output: self.output.take(n - 2).push(
                        InstructionView::BinaryOp(
                            BinaryOpView {
                                lhs: Box::new(self.output[n - 2]),
                                rhs: Box::new(self.output[n - 1]),
                                op: self.operators.last(),
                            },
                        ),
                    ),
                },
            )
        } else {
            Err(ParseError::Error(ParseErrorKind::OneOf))
        }
    }

    /// Whether the operator `top` of the stack takes its operands before the
    /// incoming operator `op`: it does when its rank is higher, or equal with
    /// `op` grouping from the left.
    pub open spec fn binds_first(top: Operator, op: Operator) -> bool {
        top.rank() > op.rank() || (top.rank() == op.rank() && op.left_associative())
    }

    /// The stacks after the binary operator `op` came in: the operators on the
    /// stack that bind first are reduced, and `op` is put on the stack.
    pub open spec fn push_operator(self, op: Operator) -> Result<YardView, ParseError>
        decreases self.operators.len(),
    {
        if self.operators.len() > 0 && Self::binds_first(self.operators.last(), op) {
            match self.reduce() {
                Ok(next) => next.push_operator(op),
                Err(e) => Err(e),
            }
        } else {
            Ok(self.with_operator(op))
        }
    }

    /// The stacks after a right parenthesis came in: the operators above the
    /// last left parenthesis are reduced, and that parenthesis leaves the
    /// stack. Without a left parenthesis on the stack the parentheses are
    /// unbalanced, and the parse ends.
    pub open spec fn close_parenthesis(self) -> Result<YardView, ParseError>
        decreases self.operators.len(),
    {
        if self.operators.len() == 0 {
            Err(ParseError::Failure(ParseErrorKind::OneOf))
        } else if self.operators.last() == Operator::LeftParenthesis {
            Ok(YardView { operators: self.operators.drop_last(), ..self })
        } else {
            match self.reduce() {
                Ok(next) => next.close_parenthesis(),
                Err(e) => Err(e),
            }
        }
    }

    /// The stacks after the operator `op` came in.
    pub open spec fn take_operator(self, op: Operator) -> Result<YardView, ParseError> {
        match op {
            Operator::LeftParenthesis => Ok(self.with_operator(op)),
            Operator::RightParenthesis => self.close_parenthesis(),
            _ => self.push_operator(op),
        }
    }

    /// The stacks at the end of the text: every operator left is reduced.
    pub open spec fn drain(self) -> Result<YardView, ParseError>
        decreases self.operators.len(),
    {
        if self.operators.len() == 0 {
            Ok(self)
        } else {
            match self.reduce() {
                Ok(next) => next.drain(),
                Err(e) => Err(e),
            }
        }
    }
}

/// A text that holds nothing but whitespace and comments is no expression.
pub proof fn lemma_nothing_is_no_expression(s: Seq<char>)
    requires
        Token::spec_maybe_consume_extra(s).len() == 0,
    ensures
        ShuntingYard::spec_parse(s) == Err::<(InstructionView, Seq<char>), ParseError>(
            ParseError::Error(ParseErrorKind::Many1),
        ),
{
    reveal(ShuntingYard::spec_handle_token);
}

impl ShuntingYard {
    /// An operand: a call of a function, or else a literal, or else the name
    /// of a variable. `None` where the text starts with none of them.
    pub open spec fn spec_operand(s: Seq<char>) -> Result<
        Option<(InstructionView, Seq<char>)>,
        ParseError,
    > {
        match Construct::spec_function_call(s) {
            Ok((call, rest)) => Ok(Some((InstructionView::FunctionCall(call), rest))),
            Err(ParseError::Failure(k)) => Err(ParseError::Failure(k)),
            Err(ParseError::Error(_)) => match Construct::spec_constant(s) {
                Ok((c, rest)) => Ok(Some((InstructionView::Constant(c), rest))),
                Err(ParseError::Failure(k)) => Err(ParseError::Failure(k)),
                Err(ParseError::Error(_)) => match Token::spec_identifier(s) {
                    Ok((name, rest)) => Ok(Some((InstructionView::Var(name), rest))),
                    Err(ParseError::Failure(k)) => Err(ParseError::Failure(k)),
                    Err(ParseError::Error(_)) => Ok(None),
                },
            },
        }
    }

    /// One token: whitespace and comments, an operator or an operand, and
    /// whitespace and comments again. An operand goes on the output; an
    /// operator changes the stacks as [`YardView::take_operator`] says.
    #[verifier::opaque]
    pub open spec fn spec_handle_token(s: Seq<char>, yard: YardView) -> Step {
        let s = Token::spec_maybe_consume_extra(s);
        if s.len() == 0 {
            Ok(None)
        } else {
            match Operator::spec_new(s[0]) {
                Some(op) => match yard.take_operator(op) {
                    Ok(next) => Ok(Some((next, Token::spec_maybe_consume_extra(s.skip(1))))),
                    Err(e) => Err(e),
                },
                None => match Self::spec_operand(s) {
                    Ok(Some((node, rest))) => Ok(
                        Some((yard.with_output(node), Token::spec_maybe_consume_extra(rest))),
                    ),
                    Ok(None) => Ok(None),
                    Err(e) => Err(e),
                },
            }
        }
    }

    /// The tokens of a text, one after the other, until the text does not
    /// start with a token: the stacks after the last token, and the text left.
    pub open spec fn spec_tokens(s: Seq<char>, yard: YardView) -> Result<
        (YardView, Seq<char>),
        ParseError,
    >
        decreases s.len(),
    {
        match Self::spec_handle_token(s, yard) {
            Ok(Some((next, rest))) => if rest.len() < s.len() {
                Self::spec_tokens(rest, next)
            } else {
                Ok((next, s))
            },
            Ok(None) => Ok((yard, s)),
            Err(e) => Err(e),
        }
    }

    /// An expression: one token at least, then every token that follows, then
    /// the reduction of the operators left. Exactly one node must remain on
    /// the output: it is the expression.
    pub open spec fn spec_parse(s: Seq<char>) -> Parsed<InstructionView> {
        match Self::spec_handle_token(s, YardView::empty()) {
            Ok(None) => Err(ParseError::Error(ParseErrorKind::Many1)),
            Err(e) => Err(e),
            Ok(Some((first, rest))) => match Self::spec_tokens(rest, first) {
                Err(e) => Err(e),
                Ok((all, rest)) => match all.drain() {
                    Err(e) => Err(e),
                    Ok(done) => if done.output.len() == 1 {
                        Ok((done.output[0], rest))
                    } else {
                        Err(ParseError::Error(ParseErrorKind::OneOf))
                    },
                },
            },
        }
    }

    /// A parser with two empty stacks.
    fn new() -> (yard: ShuntingYard)
        ensures
            yard@ == YardView::empty(),
    {
        let yard = ShuntingYard { operators: Vec::new(), output: Vec::new() };
        assert(views(yard.output@) =~= Seq::<InstructionView>::empty());
        yard
    }

    fn push_output(&mut self, node: Instruction)
        ensures
            final(self)@ == old(self)@.with_output(node@),
    {
        proof {
            lemma_views_push(self.output@, node);
        }
        self.output.push(node);
    }

    fn reduce_output(&mut self) -> (done: Result<(), ParseError>)
        ensures
            match done {
                Ok(_) => old(self)@.reduce() == Ok::<YardView, ParseError>(final(self)@),
                Err(e) => old(self)@.reduce() == Err::<YardView, ParseError>(e),
            },
    {
        if self.output.len() < 2 || self.operators.len() < 1 {
            return Err(ParseError::Error(ParseErrorKind::OneOf));
        }
        let ghost before = self.output@;
        let ghost n = before.len() as int;
        proof {
            lemma_views_drop_last(before);
            lemma_views_drop_last(before.drop_last());
        }
        let rhs = self.output.pop().unwrap();
        let lhs = self.output.pop().unwrap();
        let op = self.operators.pop().unwrap();
        let node = Instruction::BinaryOp(BinaryOp::new(lhs, rhs, op));
        proof {
            lemma_views_push(self.output@, node);
            assert(self.output@ =~= before.take(n - 2));
            assert(views(before).drop_last().drop_last() =~= views(before).take(n - 2));
        }
        self.output.push(node);
        Ok(())
    }

    fn push_operator(&mut self, op: Operator) -> (done: Result<(), ParseError>)
        ensures
            match done {
                Ok(_) => old(self)@.push_operator(op) == Ok::<YardView, ParseError>(final(self)@),
                Err(e) => old(self)@.push_operator(op) == Err::<YardView, ParseError>(e),
            },
    {
        loop
            invariant
                old(self)@.push_operator(op) == self@.push_operator(op),
            ensures
                old(self)@.push_operator(op) == Ok::<YardView, ParseError>(
                    self@.with_operator(op),
                ),
            decreases self.operators.len(),
        {
            let n = self.operators.len();
            if n == 0 {
                break ;
            }
            let top = self.operators[n - 1];
            if !(top.precedence() > op.precedence() || (top.precedence() == op.precedence()
                && op.is_left_associative())) {
                break ;
            }
            match self.reduce_output() {
                Ok(_) => {},
                Err(e) => {
                    return Err(e);
                },
            }
        }
        self.operators.push(op);
        Ok(())
    }

    fn close_parenthesis(&mut self) -> (done: Result<(), ParseError>)
        ensures
            match done {
                Ok(_) => old(self)@.close_parenthesis() == Ok::<YardView, ParseError>(
                    final(self)@,
                ),
                Err(e) => old(self)@.close_parenthesis() == Err::<YardView, ParseError>(e),
            },
    {
        loop
            invariant
                old(self)@.close_parenthesis() == self@.close_parenthesis(),
            decreases self.operators.len(),
        {
            let n = self.operators.len();
            if n == 0 {
                return Err(ParseError::Failure(ParseErrorKind::OneOf));
            }
            if self.operators[n - 1] == Operator::LeftParenthesis {
                self.operators.pop();
                return Ok(());
            }
            match self.reduce_output() {
                Ok(_) => {},
                Err(e) => {
                    return Err(e);
                },
            }
        }
    }

    fn operator(&mut self, op: Operator) -> (done: Result<(), ParseError>)
        ensures
            match done {
                Ok(_) => old(self)@.take_operator(op) == Ok::<YardView, ParseError>(final(self)@),
                Err(e) => old(self)@.take_operator(op) == Err::<YardView, ParseError>(e),
            },
    {
        match op {
            Operator::LeftParenthesis => {
                self.operators.push(op);
                Ok(())
            },
            Operator::RightParenthesis => self.close_parenthesis(),
            _ => self.push_operator(op),
        }
    }

    fn operand(src: &Vec<char>, pos: usize) -> (found: Result<
        Option<(usize, Instruction)>,
        ParseError,
    >)
        requires
            pos <= src.len(),
        ensures
            match found {
                Ok(Some((next, node))) => pos <= next <= src.len() && Self::spec_operand(
                    src@.skip(pos as int),
                ) == Ok::<Option<(InstructionView, Seq<char>)>, ParseError>(
                    Some((node@, src@.skip(next as int))),
                ),
                Ok(None) => Self::spec_operand(src@.skip(pos as int)) == Ok::<
                    Option<(InstructionView, Seq<char>)>,
                    ParseError,
                >(None),
                Err(e) => Self::spec_operand(src@.skip(pos as int)) == Err::<
                    Option<(InstructionView, Seq<char>)>,
                    ParseError,
                >(e),
            },
    {
        match Construct::function_call_at(src, pos) {
            Ok((next, call)) => return Ok(Some((next, Instruction::FunctionCall(call)))),
            Err(ParseError::Failure(k)) => return Err(ParseError::Failure(k)),
            Err(ParseError::Error(_)) => {},
        }
        match Construct::constant_at(src, pos) {
            Ok((next, c)) => return Ok(Some((next, Instruction::Constant(c)))),
            Err(ParseError::Failure(k)) => return Err(ParseError::Failure(k)),
            Err(ParseError::Error(_)) => {},
        }
        match Token::identifier(src, pos) {
            Ok((next, name)) => Ok(Some((next, Instruction::Var(name)))),
            Err(ParseError::Failure(k)) => Err(ParseError::Failure(k)),
            Err(ParseError::Error(_)) => Ok(None),
        }
    }

    /// `found`, the outcome of reading a token at `pos` in `src` with the
    /// stacks `after`, is what `step` says.
    pub open spec fn step_found_at(
        src: Seq<char>,
        pos: usize,
        found: Result<Option<usize>, ParseError>,
        after: YardView,
        step: Step,
    ) -> bool {
        match found {
            Ok(Some(next)) => pos <= next <= src.len() && step == Ok::<
                Option<(YardView, Seq<char>)>,
                ParseError,
            >(Some((after, src.skip(next as int)))),
            Ok(None) => step == Ok::<Option<(YardView, Seq<char>)>, ParseError>(None),
            Err(e) => step == Err::<Option<(YardView, Seq<char>)>, ParseError>(e),
        }
    }

    fn handle_token(&mut self, src: &Vec<char>, pos: usize) -> (found: Result<
        Option<usize>,
        ParseError,
    >)
        requires
            pos <= src.len(),
        ensures
            Self::step_found_at(
                src@,
                pos,
                found,
                final(self)@,
                Self::spec_handle_token(src@.skip(pos as int), old(self)@),
            ),
            found matches Ok(None) ==> final(self)@ == old(self)@,
    {
        reveal(ShuntingYard::spec_handle_token);
        let start = Token::maybe_consume_extra(src, pos);
        if start >= src.len() {
            return Ok(None);
        }
        proof {
            crate::text::lemma_skip_step(src@, start as int);
        }
        match Operator::new(src[start]) {
            Some(op) => match self.operator(op) {
                Ok(_) => Ok(Some(Token::maybe_consume_extra(src, start + 1))),
                Err(e) => Err(e),
            },
            None => match Self::operand(src, start) {
                Ok(Some((next, node))) => {
                    self.push_output(node);
                    Ok(Some(Token::maybe_consume_extra(src, next)))
                },
                Ok(None) => Ok(None),
                Err(e) => Err(e),
            },
        }
    }

    fn drain(&mut self) -> (done: Result<(), ParseError>)
        ensures
            match done {
                Ok(_) => old(self)@.drain() == Ok::<YardView, ParseError>(final(self)@),
                Err(e) => old(self)@.drain() == Err::<YardView, ParseError>(e),
            },
    {
        while self.operators.len() > 0
            invariant
                old(self)@.drain() == self@.drain(),
            decreases self.operators.len(),
        {
            match self.reduce_output() {
                Ok(_) => {},
                Err(e) => {
                    return Err(e);
                },
            }
        }
        Ok(())
    }

    /// Reads an expression at `pos`.
    pub fn parse_at(src: &Vec<char>, pos: usize) -> (found: Result<(usize, Instruction), ParseError>)
        requires
            pos <= src.len(),
        ensures
            found_view_at(src@, pos, found, Self::spec_parse(src@.skip(pos as int))),
    {
        let mut yard = ShuntingYard::new();
        let mut cur: usize = match yard.handle_token(src, pos) {
            Ok(Some(next)) => next,
            Ok(None) => return Err(ParseError::Error(ParseErrorKind::Many1)),
            Err(e) => return Err(e),
        };
        let ghost first = yard@;
        let ghost start = cur;
        loop
            invariant_except_break
                Self::spec_tokens(src@.skip(start as int), first) == Self::spec_tokens(
                    src@.skip(cur as int),
                    yard@,
                ),
            invariant
                pos <= cur <= src.len(),
                Self::spec_handle_token(src@.skip(pos as int), YardView::empty()) == Ok::<
                    Option<(YardView, Seq<char>)>,
                    ParseError,
                >(Some((first, src@.skip(start as int)))),
            ensures
                pos <= cur <= src.len(),
                Self::spec_tokens(src@.skip(start as int), first) == Ok::<
                    (YardView, Seq<char>),
                    ParseError,
                >((yard@, src@.skip(cur as int))),
            decreases src.len() - cur,
        {
            match yard.handle_token(src, cur) {
                Ok(Some(next)) => {
                    if next == cur {
                        break ;
                    }
                    cur = next;
                },
                Ok(None) => {
                    break ;
                },
                Err(e) => {
                    return Err(e);
                },
            }
        }
        match yard.drain() {
            Ok(_) => {},
            Err(e) => {
                return Err(e);
            },
        }
        if yard.output.len() != 1 {
            return Err(ParseError::Error(ParseErrorKind::OneOf));
        }
        proof {
            lemma_views_drop_last(yard.output@);
        }
        let node = yard.output.pop().unwrap();
        Ok((cur, node))
    }

    /// Reads an expression at the start of `i`.
    pub fn parse(i: &str) -> (found: Result<(&str, Instruction), ParseError>)
        ensures
            found_in(found, Self::spec_parse(i@)),
    {
        let src = to_chars(i);
        assert(src@.skip(0) =~= src@);
        match Self::parse_at(&src, 0) {
            Ok((next, node)) => Ok((rest_of(i, &src, next), node)),
            Err(e) => Err(e),
        }
    }
}

} // verus!
