//! Conversion tables: the factor of each unit suffix.

use crate::number::{Number, Term};
use vstd::prelude::*;

verus! {

/// One line of a conversion table.
#[derive(Debug, PartialEq, Eq)]
pub struct Conversion {
    pub suffix: String,
    pub factor: Number,
}

/// The mapping that the lines `entries` describe, a later line replacing an
/// earlier one with the same suffix.
pub open spec fn mapping(entries: Seq<Conversion>) -> Map<Seq<char>, Term>
    decreases entries.len(),
{
    if entries.len() == 0 {
        Map::empty()
    } else {
        mapping(entries.drop_last()).insert(entries.last().suffix@, entries.last().factor@)
    }
}

/// A mapping from unit suffixes to conversion factors. Suffixes are compared
/// character by character, so upper and lower case differ.
#[derive(Debug)]
pub struct Conversions {
    entries: Vec<Conversion>,
}

impl View for Conversions {
    type V = Map<Seq<char>, Term>;

    closed spec fn view(&self) -> Map<Seq<char>, Term> {
        mapping(self.entries@)
    }
}

/// The factors of the usual units of length, relative to the metre.
pub open spec fn length_factors() -> Map<Seq<char>, Term> {
    Map::<Seq<char>, Term>::empty().insert("km"@, Term::Literal("1000.0"@)).insert(
        "m"@,
        Term::Literal("1.0"@),
    ).insert("cm"@, Term::Literal("0.01"@)).insert("mm"@, Term::Literal("0.001"@)).insert(
        "mi"@,
        Term::Literal("1609.344"@),
    ).insert("yd"@, Term::Literal("0.9144"@)).insert("ft"@, Term::Literal("0.3048"@)).insert(
        "in"@,
        Term::Literal("0.0254"@),
    )
}

impl Conversions {
    /// The table without any suffix.
    pub fn new() -> (r: Conversions)
        ensures
            r@ == Map::<Seq<char>, Term>::empty(),
    {
        Conversions { entries: Vec::new() }
    }

    /// Gives `suffix` the factor `factor`, in place of the one it had, if any.
    pub fn insert(&mut self, suffix: &str, factor: Number)
        ensures
            final(self)@ == old(self)@.insert(suffix@, factor@),
    {
        self.entries.push(Conversion { suffix: suffix.to_owned(), factor });
        assert(self.entries@.drop_last() =~= old(self).entries@);
    }

    /// The factor of `suffix`, where the table has one.
    pub fn get(&self, suffix: &str) -> (r: Option<&Number>)
        ensures
            r is Some <==> self@.contains_key(suffix@),
            r is Some ==> r->0@ == self@[suffix@],
    {
        let key = suffix.to_owned();
        let mut i: usize = self.entries.len();
        assert(self.entries@.take(i as int) =~= self.entries@);
        while i > 0
            invariant
                i <= self.entries.len(),
                key@ == suffix@,
                mapping(self.entries@).contains_key(key@) == mapping(
                    self.entries@.take(i as int),
                ).contains_key(key@),
                mapping(self.entries@).contains_key(key@) ==> mapping(self.entries@)[key@]
                    == mapping(self.entries@.take(i as int))[key@],
            decreases i,
        {
            i -= 1;
            assert(self.entries@.take(i + 1).drop_last() =~= self.entries@.take(i as int));
            if self.entries[i].suffix == key {
                return Some(&self.entries[i].factor);
            }
        }
        None
    }

    /// The table of the usual units of length.
    pub fn lengths() -> (r: Conversions)
        ensures
            r@ == length_factors(),
    {
        let mut r = Conversions::new();
        r.insert("km", Number::literal("1000.0"));
        r.insert("m", Number::literal("1.0"));
        r.insert("cm", Number::literal("0.01"));
        r.insert("mm", Number::literal("0.001"));
        r.insert("mi", Number::literal("1609.344"));
        r.insert("yd", Number::literal("0.9144"));
        r.insert("ft", Number::literal("0.3048"));
        r.insert("in", Number::literal("0.0254"));
        r
    }
}

} // verus!
