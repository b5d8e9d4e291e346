//! Numbers as exact arithmetic expressions.

use crate::literal::number_literal;
use vstd::prelude::*;

verus! {

/// The mathematical shape of a [`Number`].
pub enum Term {
    /// A literal, by the characters it was written with.
    Literal(Seq<char>),
    /// A non-negative whole number.
    Whole(nat),
    Sum(Box<Term>, Box<Term>),
    Product(Box<Term>, Box<Term>),
    Quotient(Box<Term>, Box<Term>),
}

impl Term {
    /// The real number that the term stands for, once `literal` says which
    /// number each literal is. A quotient by zero has no meaning that callers
    /// may rely on.
    pub open spec fn meaning(self, literal: spec_fn(Seq<char>) -> real) -> real
        decreases self,
    {
        match self {
            Term::Literal(text) => literal(text),
            Term::Whole(n) => n as real,
            Term::Sum(l, r) => l.meaning(literal) + r.meaning(literal),
            Term::Product(l, r) => l.meaning(literal) * r.meaning(literal),
            Term::Quotient(l, r) => l.meaning(literal) / r.meaning(literal),
        }
    }

    /// Every literal in the term is a number literal.
    pub open spec fn numeric(self) -> bool
        decreases self,
    {
        match self {
            Term::Literal(text) => number_literal(text),
            Term::Whole(_) => true,
            Term::Sum(l, r) => l.numeric() && r.numeric(),
            Term::Product(l, r) => l.numeric() && r.numeric(),
            Term::Quotient(l, r) => l.numeric() && r.numeric(),
        }
    }
}

/// A number, held as the expression that computes it.
#[derive(Debug, PartialEq, Eq)]
pub enum Number {
    /// A literal as it was written, such as `2.5` or `1e-3`.
    Literal(String),
    /// A non-negative whole number.
    Whole(u64),
    Sum(Box<Number>, Box<Number>),
    Product(Box<Number>, Box<Number>),
    Quotient(Box<Number>, Box<Number>),
}

impl View for Number {
    type V = Term;

    open spec fn view(&self) -> Term {
        self.term()
    }
}

impl Number {
    /// The expression, with each literal reduced to its characters.
    pub open spec fn term(&self) -> Term
        decreases self,
    {
        match self {
            Number::Literal(text) => Term::Literal(text@),
            Number::Whole(n) => Term::Whole(*n as nat),
            Number::Sum(l, r) => Term::Sum(Box::new(l.term()), Box::new(r.term())),
            Number::Product(l, r) => Term::Product(Box::new(l.term()), Box::new(r.term())),
            Number::Quotient(l, r) => Term::Quotient(Box::new(l.term()), Box::new(r.term())),
        }
    }

    /// The literal written as `text`.
    pub fn literal(text: &str) -> (r: Number)
        ensures
            r@ == Term::Literal(text@),
    {
        Number::Literal(text.to_owned())
    }

    /// The whole number `n`.
    pub fn whole(n: u64) -> (r: Number)
        ensures
            r@ == Term::Whole(n as nat),
    {
        Number::Whole(n)
    }

    /// `self + other`.
    pub fn plus(self, other: Number) -> (r: Number)
        ensures
            r@ == Term::Sum(Box::new(self@), Box::new(other@)),
    {
        Number::Sum(Box::new(self), Box::new(other))
    }

    /// `self * other`.
    pub fn times(self, other: Number) -> (r: Number)
        ensures
            r@ == Term::Product(Box::new(self@), Box::new(other@)),
    {
        Number::Product(Box::new(self), Box::new(other))
    }

    /// `self / other`.
    pub fn over(self, other: Number) -> (r: Number)
        ensures
            r@ == Term::Quotient(Box::new(self@), Box::new(other@)),
    {
        Number::Quotient(Box::new(self), Box::new(other))
    }

    /// A second copy of the same expression.
    pub fn duplicate(&self) -> (r: Number)
        ensures
            r@ == self@,
        decreases self,
    {
        match self {
            Number::Literal(text) => Number::Literal(text.clone()),
            Number::Whole(n) => Number::Whole(*n),
            Number::Sum(l, r) => Number::Sum(Box::new(l.duplicate()), Box::new(r.duplicate())),
            Number::Product(l, r) => Number::Product(
                Box::new(l.duplicate()),
                Box::new(r.duplicate()),
            ),
            Number::Quotient(l, r) => Number::Quotient(
                Box::new(l.duplicate()),
                Box::new(r.duplicate()),
            ),
        }
    }
}

} // verus!
