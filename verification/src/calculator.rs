//! The stack of units and the operations on its top.

use crate::number::{Number, Term};
use crate::table::Conversions;
use crate::unit::{joined, Quantity, Unit};
use vstd::prelude::*;

verus! {

/// Why the calculator refused a token.
#[derive(Debug, Clone, Copy, PartialEq, Eq, Structural)]
pub enum CalcError {
    /// An operator found fewer units on the stack than it takes.
    NotEnoughOperands,
    /// The token is no operator, no number and ends in no known suffix.
    UnknownToken,
}

/// The unit that stands for the unlabelled number `value`.
pub open spec fn plain(value: Term) -> Quantity {
    Quantity { value, numerator: Seq::empty(), denominator: Seq::empty(), factor: Term::Whole(1) }
}

/// The top `a` expressed in the second `b`'s place: `b` on the scale of `a`,
/// with the factor of `a`.
pub open spec fn rescaling(a: Quantity, b: Quantity) -> Quantity {
    b.converted(a, a.factor)
}

/// The product of the top `a` and the second `b`.
pub open spec fn product(a: Quantity, b: Quantity) -> Quantity {
    Quantity {
        value: Term::Product(Box::new(a.value), Box::new(b.value)),
        numerator: a.numerator + b.numerator,
        denominator: a.denominator + b.denominator,
        factor: Term::Product(Box::new(a.factor), Box::new(b.factor)),
    }
}

/// The second `b` divided by the top `a`.
pub open spec fn quotient(a: Quantity, b: Quantity) -> Quantity {
    Quantity {
        value: Term::Quotient(Box::new(b.value), Box::new(a.value)),
        numerator: a.denominator + b.numerator,
        denominator: a.numerator + b.denominator,
        factor: Term::Quotient(Box::new(b.factor), Box::new(a.factor)),
    }
}

/// The values of `stack` added up from the bottom, starting at zero.
pub open spec fn total(stack: Seq<Quantity>) -> Term
    decreases stack.len(),
{
    if stack.len() == 0 {
        Term::Whole(0)
    } else {
        Term::Sum(Box::new(total(stack.drop_last())), Box::new(stack.last().value))
    }
}

/// The arithmetic mean of the values of `stack`, as an unlabelled number.
pub open spec fn average(stack: Seq<Quantity>) -> Quantity {
    plain(Term::Quotient(Box::new(total(stack)), Box::new(Term::Whole(stack.len()))))
}

/// `stack` with its two topmost units replaced by `result`.
pub open spec fn reduced(stack: Seq<Quantity>, result: Quantity) -> Seq<Quantity> {
    stack.take(stack.len() - 2).push(result)
}

/// A stack of units, top last, with the conversion table it was made with.
#[derive(Debug)]
pub struct Calculator {
    pub stack: Vec<Unit>,
    pub conversions: Conversions,
}

impl Calculator {
    /// The stack, bottom first.
    pub open spec fn units(&self) -> Seq<Quantity> {
        self.stack@.map_values(|u: Unit| u@)
    }

    /// The top of the stack.
    pub open spec fn top(&self) -> Quantity
        recommends
            self.stack.len() >= 1,
    {
        self.units()[self.stack.len() - 1]
    }

    /// The unit below the top.
    pub open spec fn second(&self) -> Quantity
        recommends
            self.stack.len() >= 2,
    {
        self.units()[self.stack.len() - 2]
    }

    /// A calculator with an empty stack.
    pub fn new(conversions: Conversions) -> (r: Calculator)
        ensures
            r.units() == Seq::<Quantity>::empty(),
            r.conversions == conversions,
    {
        let r = Calculator { stack: Vec::new(), conversions };
        assert(r.units() =~= Seq::<Quantity>::empty());
        r
    }

    /// Puts a new unit on top of the stack.
    pub fn push(&mut self, value: Number, numerator: String, denominator: String, factor: Number)
        ensures
            final(self).units() == old(self).units().push(
                Quantity {
                    value: value@,
                    numerator: numerator@,
                    denominator: denominator@,
                    factor: factor@,
                },
            ),
            final(self).conversions == old(self).conversions,
    {
        let unit = Unit::new(value, numerator, denominator, factor);
        self.stack.push(unit);
        assert(self.units() =~= old(self).units().push(unit@));
    }

    /// Takes the top off the stack, if there is one.
    pub fn pop(&mut self) -> (r: Option<Unit>)
        ensures
            old(self).stack.len() == 0 ==> r is None && final(self).stack@ == old(self).stack@,
            old(self).stack.len() > 0 ==> r is Some && r->0@ == old(self).top()
                && final(self).units() == old(self).units().drop_last(),
            final(self).conversions == old(self).conversions,
    {
        let r = self.stack.pop();
        assert(old(self).stack.len() > 0 ==> self.units() =~= old(self).units().drop_last());
        r
    }

    /// Takes the two topmost units off the stack: the top, then the second.
    fn pop_pair(&mut self) -> (r: (Unit, Unit))
        requires
            old(self).stack.len() >= 2,
        ensures
            r.0@ == old(self).top(),
            r.1@ == old(self).second(),
            final(self).units() == old(self).units().take(old(self).stack.len() - 2),
            final(self).conversions == old(self).conversions,
    {
        let a = self.stack.pop().unwrap();
        let b = self.stack.pop().unwrap();
        assert(self.units() =~= old(self).units().take(old(self).stack.len() - 2));
        (a, b)
    }

    /// Replaces the two topmost units by the second expressed on the scale of
    /// the top. Leaves the stack as it is where it holds fewer than two units.
    pub fn add(&mut self) -> (r: Result<(), CalcError>)
        ensures
            old(self).stack.len() >= 2 ==> r is Ok && final(self).units() == reduced(
                old(self).units(),
                rescaling(old(self).top(), old(self).second()),
            ),
            old(self).stack.len() < 2 ==> r == Err::<(), CalcError>(CalcError::NotEnoughOperands)
                && final(self).stack == old(self).stack,
            final(self).conversions == old(self).conversions,
    {
        if self.stack.len() < 2 {
            return Err(CalcError::NotEnoughOperands);
        }
        let (a, b) = self.pop_pair();
        let (value, numerator, denominator) = b.convert(&a);
        self.push(value, numerator, denominator, a.factor);
        Ok(())
    }

    /// Does to the stack exactly what [`Calculator::add`] does.
    pub fn sub(&mut self) -> (r: Result<(), CalcError>)
        ensures
            old(self).stack.len() >= 2 ==> r is Ok && final(self).units() == reduced(
                old(self).units(),
                rescaling(old(self).top(), old(self).second()),
            ),
            old(self).stack.len() < 2 ==> r == Err::<(), CalcError>(CalcError::NotEnoughOperands)
                && final(self).stack == old(self).stack,
            final(self).conversions == old(self).conversions,
    {
        if self.stack.len() < 2 {
            return Err(CalcError::NotEnoughOperands);
        }
        let (a, b) = self.pop_pair();
        let (value, numerator, denominator) = b.convert(&a);
        self.push(value, numerator, denominator, a.factor);
        Ok(())
    }

    /// Replaces the two topmost units by their product. Leaves the stack as it
    /// is where it holds fewer than two units.
    pub fn mul(&mut self) -> (r: Result<(), CalcError>)
        ensures
            old(self).stack.len() >= 2 ==> r is Ok && final(self).units() == reduced(
                old(self).units(),
                product(old(self).top(), old(self).second()),
            ),
            old(self).stack.len() < 2 ==> r == Err::<(), CalcError>(CalcError::NotEnoughOperands)
                && final(self).stack == old(self).stack,
            final(self).conversions == old(self).conversions,
    {
        if self.stack.len() < 2 {
            return Err(CalcError::NotEnoughOperands);
        }
        let (a, b) = self.pop_pair();
        let value = a.value.times(b.value);
        let numerator = joined(&a.numerator, &b.numerator);
        let denominator = joined(&a.denominator, &b.denominator);
        let factor = a.factor.times(b.factor);
        self.push(value, numerator, denominator, factor);
        Ok(())
    }

    /// Replaces the two topmost units by the second divided by the top. Leaves
    /// the stack as it is where it holds fewer than two units.
    pub fn div(&mut self) -> (r: Result<(), CalcError>)
        ensures
            old(self).stack.len() >= 2 ==> r is Ok && final(self).units() == reduced(
                old(self).units(),
                quotient(old(self).top(), old(self).second()),
            ),
            old(self).stack.len() < 2 ==> r == Err::<(), CalcError>(CalcError::NotEnoughOperands)
                && final(self).stack == old(self).stack,
            final(self).conversions == old(self).conversions,
    {
        if self.stack.len() < 2 {
            return Err(CalcError::NotEnoughOperands);
        }
        let (a, b) = self.pop_pair();
        let value = b.value.over(a.value);
        let numerator = joined(&a.denominator, &b.numerator);
        let denominator = joined(&a.numerator, &b.denominator);
        let factor = b.factor.over(a.factor);
        self.push(value, numerator, denominator, factor);
        Ok(())
    }

    /// Replaces the whole stack by the mean of its values, an unlabelled
    /// number. Leaves the stack as it is where it is empty.
    pub fn mean(&mut self) -> (r: Result<(), CalcError>)
        ensures
            old(self).stack.len() >= 1 ==> r is Ok && final(self).units() == seq![
                average(old(self).units()),
            ],
            old(self).stack.len() < 1 ==> r == Err::<(), CalcError>(CalcError::NotEnoughOperands)
                && final(self).stack == old(self).stack,
            final(self).conversions == old(self).conversions,
    {
        let count = self.stack.len();
        if count < 1 {
            return Err(CalcError::NotEnoughOperands);
        }
        let mut sum = Number::whole(0);
        let mut i: usize = 0;
        assert(self.units().take(0) =~= Seq::<Quantity>::empty());
        while i < count
            invariant
                i <= count,
                count == self.stack.len(),
                self.stack == old(self).stack,
                sum@ == total(self.units().take(i as int)),
            decreases count - i,
        {
            assert(self.units().take(i + 1).drop_last() =~= self.units().take(i as int));
            sum = sum.plus(self.stack[i].value.duplicate());
            i += 1;
        }
        assert(self.units().take(count as int) =~= old(self).units());
        self.stack.clear();
        assert(self.units() =~= Seq::<Quantity>::empty());
        self.push(sum.over(Number::whole(count as u64)), String::new(), String::new(), Number::whole(1));
        assert(self.units() =~= seq![average(old(self).units())]);
        Ok(())
    }
}

} // verus!
