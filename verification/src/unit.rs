//! Numbers with unit labels.

use crate::number::{Number, Term};
use vstd::prelude::*;
use vstd::string::StringExecFns;

verus! {

/// The mathematical content of a [`Unit`].
pub struct Quantity {
    pub value: Term,
    pub numerator: Seq<char>,
    pub denominator: Seq<char>,
    pub factor: Term,
}

/// The numerator label of a quantity labelled `own` once it is expressed on
/// the scale of one labelled `other`: the shared label, or `other` then `own`.
pub open spec fn merged_numerator(own: Seq<char>, other: Seq<char>) -> Seq<char> {
    if own == other {
        other
    } else {
        other + own
    }
}

/// The denominator label of a quantity labelled `own` once it is expressed on
/// the scale of one labelled `other`: the shared label, or `own` then `other`.
pub open spec fn merged_denominator(own: Seq<char>, other: Seq<char>) -> Seq<char> {
    if own == other {
        own
    } else {
        own + other
    }
}

impl Quantity {
    /// The value of `self` on the scale of `other`:
    /// `self.value * (other.factor * self.factor) / other.value`.
    pub open spec fn rescaled(self, other: Quantity) -> Term {
        Term::Quotient(
            Box::new(
                Term::Product(
                    Box::new(self.value),
                    Box::new(Term::Product(Box::new(other.factor), Box::new(self.factor))),
                ),
            ),
            Box::new(other.value),
        )
    }

    /// The value and the factor hold number literals only.
    pub open spec fn numeric(self) -> bool {
        self.value.numeric() && self.factor.numeric()
    }

    /// `self` expressed on the scale of `other`, carrying the factor `factor`.
    pub open spec fn converted(self, other: Quantity, factor: Term) -> Quantity {
        Quantity {
            value: self.rescaled(other),
            numerator: merged_numerator(self.numerator, other.numerator),
            denominator: merged_denominator(self.denominator, other.denominator),
            factor,
        }
    }
}

/// A value with the labels of the units in its numerator and denominator and
/// the factor that turns the value into the base unit.
///
/// Conversion tables list positive factors only; nothing here checks a factor.
#[derive(Debug, PartialEq, Eq)]
pub struct Unit {
    pub value: Number,
    pub numerator: String,
    pub denominator: String,
    pub factor: Number,
}

impl View for Unit {
    type V = Quantity;

    open spec fn view(&self) -> Quantity {
        Quantity {
            value: self.value@,
            numerator: self.numerator@,
            denominator: self.denominator@,
            factor: self.factor@,
        }
    }
}

/// `first` followed by `second`.
pub fn joined(first: &String, second: &String) -> (r: String)
    ensures
        r@ == first@ + second@,
{
    let mut r = first.clone();
    r.append(second.as_str());
    r
}

impl Unit {
    pub fn new(value: Number, numerator: String, denominator: String, factor: Number) -> (r: Unit)
        ensures
            r.value == value,
            r.numerator == numerator,
            r.denominator == denominator,
            r.factor == factor,
    {
        Unit { value, numerator, denominator, factor }
    }

    /// Expresses `self` on the scale of `other`: the rescaled value and the
    /// merged numerator and denominator labels.
    pub fn convert(&self, other: &Unit) -> (r: (Number, String, String))
        ensures
            r.0@ == self@.rescaled(other@),
            r.1@ == merged_numerator(self.numerator@, other.numerator@),
            r.2@ == merged_denominator(self.denominator@, other.denominator@),
    {
        let numerator = if self.numerator == other.numerator {
            other.numerator.clone()
        } else {
            joined(&other.numerator, &self.numerator)
        };
        let denominator = if self.denominator == other.denominator {
            other.denominator.clone()
        } else {
            joined(&self.denominator, &other.denominator)
        };
        let factor = other.factor.duplicate().times(self.factor.duplicate());
        let value = self.value.duplicate().times(factor).over(other.value.duplicate());
        (value, numerator, denominator)
    }

    /// The labels as they are written out: the numerator, a slash and the
    /// denominator.
    pub fn label(&self) -> (r: String)
        ensures
            r@ == self.numerator@ + seq!['/'] + self.denominator@,
    {
        let mut r = self.numerator.clone();
        proof {
            reveal_strlit("/");
            assert("/"@ =~= seq!['/']);
        }
        r.append("/");
        r.append(self.denominator.as_str());
        r
    }

    /// A second copy of the same unit.
    pub fn duplicate(&self) -> (r: Unit)
        ensures
            r@ == self@,
    {
        Unit {
            value: self.value.duplicate(),
            numerator: self.numerator.clone(),
            denominator: self.denominator.clone(),
            factor: self.factor.duplicate(),
        }
    }
}

} // verus!
