//! Tokens, and what each does to the stack.

use crate::calculator::{average, plain, product, quotient, reduced, rescaling, CalcError, Calculator};
use crate::literal::{characters, number_literal, recognize};
use crate::number::{Number, Term};
use crate::unit::Quantity;
use vstd::prelude::*;
use vstd::string::StrSliceExecFns;

verus! {

/// An operation on the top of the stack.
#[derive(Debug, Clone, Copy, PartialEq, Eq, Structural)]
pub enum Operator {
    Add,
    Sub,
    Mul,
    Div,
    Mean,
}

impl Operator {
    /// How many units the operator needs on the stack.
    pub open spec fn arity(self) -> nat {
        match self {
            Operator::Mean => 1,
            _ => 2,
        }
    }

    /// `stack` after the operator, where it holds enough units.
    pub open spec fn applied(self, stack: Seq<Quantity>) -> Seq<Quantity>
        recommends
            stack.len() >= self.arity(),
    {
        let a = stack[stack.len() - 1];
        let b = stack[stack.len() - 2];
        match self {
            Operator::Add => reduced(stack, rescaling(a, b)),
            Operator::Sub => reduced(stack, rescaling(a, b)),
            Operator::Mul => reduced(stack, product(a, b)),
            Operator::Div => reduced(stack, quotient(a, b)),
            Operator::Mean => seq![average(stack)],
        }
    }
}

/// The operator that `token` spells: `+`, `-`, `*` or `.`, `/`, `mean`.
pub open spec fn operator_of(token: Seq<char>) -> Option<Operator> {
    if token == seq!['+'] {
        Some(Operator::Add)
    } else if token == seq!['-'] {
        Some(Operator::Sub)
    } else if token == seq!['*'] || token == seq!['.'] {
        Some(Operator::Mul)
    } else if token == seq!['/'] {
        Some(Operator::Div)
    } else if token == seq!['m', 'e', 'a', 'n'] {
        Some(Operator::Mean)
    } else {
        None
    }
}

/// The last two characters of `token`.
pub open spec fn suffix_of(token: Seq<char>) -> Seq<char>
    recommends
        token.len() >= 2,
{
    token.skip(token.len() - 2)
}

/// `token` without its last two characters.
pub open spec fn label_of(token: Seq<char>) -> Seq<char>
    recommends
        token.len() >= 2,
{
    token.take(token.len() - 2)
}

/// `token` ends in a suffix of `table`.
pub open spec fn has_suffix(token: Seq<char>, table: Map<Seq<char>, Term>) -> bool {
    token.len() >= 2 && table.contains_key(suffix_of(token))
}

/// The unit that a token with a suffix of `table` stands for: the value one,
/// what precedes the suffix as the numerator, the suffix as the denominator,
/// and the factor of the suffix.
pub open spec fn suffixed(token: Seq<char>, table: Map<Seq<char>, Term>) -> Quantity
    recommends
        has_suffix(token, table),
{
    Quantity {
        value: Term::Whole(1),
        numerator: label_of(token),
        denominator: suffix_of(token),
        factor: table[suffix_of(token)],
    }
}

/// What `token` makes of `stack`: the new stack, or the reason why the stack
/// stays as it is. An operator is tried first, then a number literal, then a
/// suffix of `table`.
pub open spec fn outcome(stack: Seq<Quantity>, table: Map<Seq<char>, Term>, token: Seq<char>) -> Result<
    Seq<Quantity>,
    CalcError,
> {
    match operator_of(token) {
        Some(op) => if stack.len() >= op.arity() {
            Ok(op.applied(stack))
        } else {
            Err(CalcError::NotEnoughOperands)
        },
        None => if number_literal(token) {
            Ok(stack.push(plain(Term::Literal(token))))
        } else if has_suffix(token, table) {
            Ok(stack.push(suffixed(token, table)))
        } else {
            Err(CalcError::UnknownToken)
        },
    }
}

/// How far an evaluation has come.
pub struct Progress {
    /// The stack, bottom first.
    pub stack: Seq<Quantity>,
    /// The positions of the operators that found too few units, in order.
    pub short: Seq<usize>,
    /// The position of the token that stopped the evaluation, if one did.
    pub unknown: Option<usize>,
}

/// The state after the first `n` of `tokens`, from `stack` on. An operator
/// that finds too few units is noted and skipped; an unknown token is noted
/// and ends the evaluation.
pub open spec fn progress(
    stack: Seq<Quantity>,
    table: Map<Seq<char>, Term>,
    tokens: Seq<Seq<char>>,
    n: int,
) -> Progress
    decreases n,
{
    if n <= 0 {
        Progress { stack, short: Seq::empty(), unknown: None }
    } else {
        let before = progress(stack, table, tokens, n - 1);
        if before.unknown is Some {
            before
        } else {
            match outcome(before.stack, table, tokens[n - 1]) {
                Ok(next) => Progress { stack: next, ..before },
                Err(CalcError::NotEnoughOperands) => Progress {
                    short: before.short.push((n - 1) as usize),
                    ..before
                },
                Err(CalcError::UnknownToken) => Progress {
                    unknown: Some((n - 1) as usize),
                    ..before
                },
            }
        }
    }
}

/// Once a token has stopped the evaluation, the state no longer changes.
pub proof fn lemma_progress_stops(
    stack: Seq<Quantity>,
    table: Map<Seq<char>, Term>,
    tokens: Seq<Seq<char>>,
    k: int,
    n: int,
)
    requires
        k <= n,
        progress(stack, table, tokens, k).unknown is Some,
    ensures
        progress(stack, table, tokens, n) == progress(stack, table, tokens, k),
    decreases n - k,
{
    if k < n {
        lemma_progress_stops(stack, table, tokens, k, n - 1);
    }
}

/// What an evaluation reports besides the stack it leaves.
#[derive(Debug, PartialEq, Eq)]
pub struct Report {
    /// The positions of the operators that found too few units, in order.
    pub short: Vec<usize>,
    /// The position of the token that stopped the evaluation, if one did.
    pub unknown: Option<usize>,
}

/// The characters of each of `tokens`.
pub open spec fn spelled(tokens: Seq<String>) -> Seq<Seq<char>> {
    tokens.map_values(|t: String| t@)
}

/// The operator that `token` spells, if it spells one.
pub fn read_operator(token: &Vec<char>) -> (r: Option<Operator>)
    ensures
        r == operator_of(token@),
{
    let n = token.len();
    if n == 1 {
        let c = token[0];
        assert(token@ =~= seq![c]);
        assert(seq![c][0] == c);
        if c == '+' {
            Some(Operator::Add)
        } else if c == '-' {
            Some(Operator::Sub)
        } else if c == '*' || c == '.' {
            Some(Operator::Mul)
        } else if c == '/' {
            Some(Operator::Div)
        } else {
            assert(seq!['+'][0] == '+' && seq!['-'][0] == '-' && seq!['*'][0] == '*' && seq!['.'][0]
                == '.' && seq!['/'][0] == '/');
            None
        }
    } else if n == 4 && token[0] == 'm' && token[1] == 'e' && token[2] == 'a' && token[3] == 'n' {
        assert(token@ =~= seq!['m', 'e', 'a', 'n']);
        Some(Operator::Mean)
    } else {
        assert(token@ != seq!['m', 'e', 'a', 'n']) by {
            let w = seq!['m', 'e', 'a', 'n'];
            assert(w.len() == 4 && w[0] == 'm' && w[1] == 'e' && w[2] == 'a' && w[3] == 'n');
        }
        assert(seq!['+'].len() == 1 && seq!['-'].len() == 1 && seq!['*'].len() == 1 && seq![
            '.',
        ].len() == 1 && seq!['/'].len() == 1);
        None
    }
}

impl Calculator {
    /// Applies `op` to the top of the stack. Leaves the stack as it is where
    /// it holds fewer units than `op` needs.
    pub fn operate(&mut self, op: Operator) -> (r: Result<(), CalcError>)
        ensures
            old(self).stack.len() >= op.arity() ==> r is Ok && final(self).units() == op.applied(
                old(self).units(),
            ),
            old(self).stack.len() < op.arity() ==> r == Err::<(), CalcError>(
                CalcError::NotEnoughOperands,
            ) && final(self).stack == old(self).stack,
            final(self).conversions == old(self).conversions,
    {
        match op {
            Operator::Add => self.add(),
            Operator::Sub => self.sub(),
            Operator::Mul => self.mul(),
            Operator::Div => self.div(),
            Operator::Mean => self.mean(),
        }
    }

    /// Evaluates one token: an operator works on the top of the stack, a
    /// number literal or a token that ends in a known suffix is pushed.
    /// Leaves the stack as it is where the token is refused.
    pub fn apply(&mut self, token: &str) -> (r: Result<(), CalcError>)
        ensures
            match outcome(old(self).units(), old(self).conversions@, token@) {
                Ok(next) => r is Ok && final(self).units() == next,
                Err(e) => r == Err::<(), CalcError>(e) && final(self).stack == old(self).stack,
            },
            final(self).conversions == old(self).conversions,
    {
        let chars = characters(token);
        if let Some(op) = read_operator(&chars) {
            return self.operate(op);
        }
        if recognize(&chars) {
            self.push(Number::literal(token), String::new(), String::new(), Number::whole(1));
            return Ok(());
        }
        let n = chars.len();
        if n < 2 {
            return Err(CalcError::UnknownToken);
        }
        let label = token.substring_char(0, n - 2);
        let suffix = token.substring_char(n - 2, n);
        assert(suffix@ == suffix_of(token@));
        assert(label@ == label_of(token@));
        let found = match self.conversions.get(suffix) {
            Some(factor) => Some(factor.duplicate()),
            None => None,
        };
        match found {
            Some(factor) => {
                self.push(Number::whole(1), label.to_owned(), suffix.to_owned(), factor);
                Ok(())
            },
            None => Err(CalcError::UnknownToken),
        }
    }

    /// Evaluates `tokens` from left to right. An operator that finds too few
    /// units is reported and skipped; the first unknown token is reported and
    /// ends the evaluation, the tokens after it untouched.
    pub fn evaluate(&mut self, tokens: &Vec<String>) -> (r: Report)
        ensures
            final(self).units() == progress(
                old(self).units(),
                old(self).conversions@,
                spelled(tokens@),
                tokens.len() as int,
            ).stack,
            r.short@ == progress(
                old(self).units(),
                old(self).conversions@,
                spelled(tokens@),
                tokens.len() as int,
            ).short,
            r.unknown == progress(
                old(self).units(),
                old(self).conversions@,
                spelled(tokens@),
                tokens.len() as int,
            ).unknown,
            final(self).conversions == old(self).conversions,
    {
        let mut short: Vec<usize> = Vec::new();
        let mut i: usize = 0;
        while i < tokens.len()
            invariant
                i <= tokens.len(),
                self.conversions == old(self).conversions,
                progress(old(self).units(), old(self).conversions@, spelled(tokens@), i as int)
                    == (Progress { stack: self.units(), short: short@, unknown: None }),
            decreases tokens.len() - i,
        {
            assert(spelled(tokens@)[i as int] == tokens@[i as int]@);
            match self.apply(tokens[i].as_str()) {
                Ok(()) => {},
                Err(CalcError::NotEnoughOperands) => {
                    short.push(i);
                },
                Err(CalcError::UnknownToken) => {
                    proof {
                        lemma_progress_stops(
                            old(self).units(),
                            old(self).conversions@,
                            spelled(tokens@),
                            i + 1,
                            tokens.len() as int,
                        );
                    }
                    return Report { short, unknown: Some(i) };
                },
            }
            i += 1;
        }
        Report { short, unknown: None }
    }
}

} // verus!
