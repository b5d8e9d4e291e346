//! What holds of every evaluation.

use crate::calculator::total;
use crate::evaluator::{operator_of, progress, Operator};
use crate::literal::{digit_run, number_literal};
use crate::number::Term;
use crate::table::length_factors;
use crate::unit::Quantity;
use vstd::prelude::*;

verus! {

/// How many of the first `n` of `tokens` spell no operator.
pub open spec fn operands(tokens: Seq<Seq<char>>, n: int) -> nat
    decreases n,
{
    if n <= 0 {
        0
    } else if operator_of(tokens[n - 1]) is None {
        operands(tokens, n - 1) + 1
    } else {
        operands(tokens, n - 1)
    }
}

/// How many of the first `n` of `tokens` spell an operator.
pub open spec fn operators(tokens: Seq<Seq<char>>, n: int) -> nat
    decreases n,
{
    if n <= 0 {
        0
    } else if operator_of(tokens[n - 1]) is Some {
        operators(tokens, n - 1) + 1
    } else {
        operators(tokens, n - 1)
    }
}

/// Each operator is spelled as written here, `*` and `.` both multiplying.
pub proof fn law_operator_spellings()
    ensures
        operator_of(seq!['+']) == Some(Operator::Add),
        operator_of(seq!['-']) == Some(Operator::Sub),
        operator_of(seq!['*']) == Some(Operator::Mul),
        operator_of(seq!['.']) == Some(Operator::Mul),
        operator_of(seq!['/']) == Some(Operator::Div),
        operator_of(seq!['m', 'e', 'a', 'n']) == Some(Operator::Mean),
{
    assert(seq!['+'][0] == '+' && seq!['-'][0] == '-' && seq!['*'][0] == '*' && seq!['.'][0] == '.'
        && seq!['/'][0] == '/');
    assert(seq!['m', 'e', 'a', 'n'].len() == 4);
}

/// A number literal spells no operator.
pub proof fn law_literal_is_no_operator(token: Seq<char>)
    requires
        number_literal(token),
    ensures
        operator_of(token) is None,
{
    let mean = seq!['m', 'e', 'a', 'n'];
    assert(mean.len() == 4 && mean[0] == 'm');
    assert(seq!['+'].len() == 1 && seq!['+'][0] == '+');
    assert(seq!['-'].len() == 1 && seq!['-'][0] == '-');
    assert(seq!['*'].len() == 1 && seq!['*'][0] == '*');
    assert(seq!['.'].len() == 1 && seq!['.'][0] == '.');
    assert(seq!['/'].len() == 1 && seq!['/'][0] == '/');
    assert(seq!['i', 'n', 'f'].len() == 3);
    assert(seq!['n', 'a', 'n'].len() == 3);
    assert(seq!['i', 'n', 'f', 'i', 'n', 'i', 't', 'y'].len() == 8);
}

/// Where no token is `mean` and none is unknown, the stack ends with one unit
/// more for each token that is no operator, and one unit less for each
/// operator that found its two units.
pub proof fn law_stack_length(
    stack: Seq<Quantity>,
    table: Map<Seq<char>, Term>,
    tokens: Seq<Seq<char>>,
    n: int,
)
    requires
        0 <= n <= tokens.len(),
        forall|i: int| 0 <= i < n ==> operator_of(#[trigger] tokens[i]) != Some(Operator::Mean),
        progress(stack, table, tokens, n).unknown is None,
    ensures
        progress(stack, table, tokens, n).short.len() <= operators(tokens, n),
        progress(stack, table, tokens, n).stack.len() == stack.len() + operands(tokens, n) - (
        operators(tokens, n) - progress(stack, table, tokens, n).short.len()),
    decreases n,
{
    if n > 0 {
        law_stack_length(stack, table, tokens, n - 1);
        assert(operator_of(tokens[n - 1]) != Some(Operator::Mean));
    }
}

/// Multiplication regroups: `a b c * *` and `a b * c *` leave one unit more on
/// the stack, and its value means the same number either way, whatever number
/// each literal stands for.
pub proof fn law_product_regroups(
    stack: Seq<Quantity>,
    table: Map<Seq<char>, Term>,
    a: Seq<char>,
    b: Seq<char>,
    c: Seq<char>,
    literal: spec_fn(Seq<char>) -> real,
)
    requires
        number_literal(a),
        number_literal(b),
        number_literal(c),
    ensures
        ({
            let star = seq!['*'];
            let left = progress(stack, table, seq![a, b, c, star, star], 5);
            let right = progress(stack, table, seq![a, b, star, c, star], 5);
            &&& left.unknown is None && left.short.len() == 0
            &&& right.unknown is None && right.short.len() == 0
            &&& left.stack.len() == stack.len() + 1
            &&& right.stack.len() == stack.len() + 1
            &&& left.stack.take(stack.len() as int) == stack
            &&& right.stack.take(stack.len() as int) == stack
            &&& left.stack.last().value.meaning(literal) == right.stack.last().value.meaning(
                literal,
            )
            &&& left.stack.last().value.meaning(literal) == literal(a) * literal(b) * literal(c)
        }),
{
    let star = seq!['*'];
    law_literal_is_no_operator(a);
    law_literal_is_no_operator(b);
    law_literal_is_no_operator(c);
    law_operator_spellings();
    let t1 = seq![a, b, c, star, star];
    let t2 = seq![a, b, star, c, star];
    assert(progress(stack, table, t1, 0).stack == stack);
    let l1 = progress(stack, table, t1, 1);
    let l2 = progress(stack, table, t1, 2);
    let l3 = progress(stack, table, t1, 3);
    let l4 = progress(stack, table, t1, 4);
    let l5 = progress(stack, table, t1, 5);
    assert(l1.stack.len() == stack.len() + 1 && l1.unknown is None && l1.short.len() == 0);
    assert(l2.stack.len() == stack.len() + 2 && l2.unknown is None && l2.short.len() == 0);
    assert(l3.stack.len() == stack.len() + 3 && l3.unknown is None && l3.short.len() == 0);
    assert(l4.stack.len() == stack.len() + 2 && l4.unknown is None && l4.short.len() == 0);
    assert(l5.stack.len() == stack.len() + 1 && l5.unknown is None && l5.short.len() == 0);
    assert(progress(stack, table, t2, 0).stack == stack);
    let r1 = progress(stack, table, t2, 1);
    let r2 = progress(stack, table, t2, 2);
    let r3 = progress(stack, table, t2, 3);
    let r4 = progress(stack, table, t2, 4);
    let r5 = progress(stack, table, t2, 5);
    assert(r1.stack.len() == stack.len() + 1 && r1.unknown is None && r1.short.len() == 0);
    assert(r2.stack.len() == stack.len() + 2 && r2.unknown is None && r2.short.len() == 0);
    assert(r3.stack.len() == stack.len() + 1 && r3.unknown is None && r3.short.len() == 0);
    assert(r4.stack.len() == stack.len() + 2 && r4.unknown is None && r4.short.len() == 0);
    assert(r5.stack.len() == stack.len() + 1 && r5.unknown is None && r5.short.len() == 0);
    assert(l5.stack.take(stack.len() as int) =~= stack);
    assert(r5.stack.take(stack.len() as int) =~= stack);
    reveal_with_fuel(Term::meaning, 4);
    let x = literal(a);
    let y = literal(b);
    let z = literal(c);
    assert(l5.stack.last().value.meaning(literal) == (z * y) * x);
    assert(r5.stack.last().value.meaning(literal) == z * (y * x));
    assert((z * y) * x == z * (y * x) && z * (y * x) == x * y * z) by (nonlinear_arith);
}

/// A number divided by itself is one: `a a /` leaves one unit more on the
/// stack, whose value means one wherever `a` does not stand for zero.
pub proof fn law_self_quotient(
    stack: Seq<Quantity>,
    table: Map<Seq<char>, Term>,
    a: Seq<char>,
    literal: spec_fn(Seq<char>) -> real,
)
    requires
        number_literal(a),
        literal(a) != 0real,
    ensures
        ({
            let after = progress(stack, table, seq![a, a, seq!['/']], 3);
            &&& after.unknown is None && after.short.len() == 0
            &&& after.stack.len() == stack.len() + 1
            &&& after.stack.take(stack.len() as int) == stack
            &&& after.stack.last().value.meaning(literal) == 1real
        }),
{
    let slash = seq!['/'];
    law_literal_is_no_operator(a);
    law_operator_spellings();
    let t = seq![a, a, slash];
    assert(progress(stack, table, t, 0).stack == stack);
    let p1 = progress(stack, table, t, 1);
    let p2 = progress(stack, table, t, 2);
    let p3 = progress(stack, table, t, 3);
    assert(p1.stack.len() == stack.len() + 1 && p1.unknown is None && p1.short.len() == 0);
    assert(p2.stack.len() == stack.len() + 2 && p2.unknown is None && p2.short.len() == 0);
    assert(p3.stack.len() == stack.len() + 1 && p3.unknown is None && p3.short.len() == 0);
    assert(p3.stack.take(stack.len() as int) =~= stack);
    reveal_with_fuel(Term::meaning, 3);
    let x = literal(a);
    assert(p3.stack.last().value.meaning(literal) == x / x);
    assert(x != 0real ==> x / x == 1real) by (nonlinear_arith);
}

/// Every unit of `stack` holds number literals only.
pub open spec fn all_numeric(stack: Seq<Quantity>) -> bool {
    forall|i: int| 0 <= i < stack.len() ==> (#[trigger] stack[i]).numeric()
}

/// Every factor of `table` holds number literals only.
pub open spec fn table_numeric(table: Map<Seq<char>, Term>) -> bool {
    forall|suffix: Seq<char>| table.contains_key(suffix) ==> (#[trigger] table[suffix]).numeric()
}

proof fn lemma_total_numeric(stack: Seq<Quantity>)
    requires
        all_numeric(stack),
    ensures
        total(stack).numeric(),
    decreases stack.len(),
{
    if stack.len() > 0 {
        assert(stack.last().numeric());
        assert forall|i: int| 0 <= i < stack.drop_last().len() implies (
        #[trigger] stack.drop_last()[i]).numeric() by {
            assert(stack[i].numeric());
        }
        lemma_total_numeric(stack.drop_last());
    }
}

/// An evaluation makes numbers of numbers: where the stack and the table hold
/// number literals only, so does the stack after any tokens.
pub proof fn law_numbers_stay_numbers(
    stack: Seq<Quantity>,
    table: Map<Seq<char>, Term>,
    tokens: Seq<Seq<char>>,
    n: int,
)
    requires
        all_numeric(stack),
        table_numeric(table),
    ensures
        all_numeric(progress(stack, table, tokens, n).stack),
    decreases n,
{
    if n > 0 {
        law_numbers_stay_numbers(stack, table, tokens, n - 1);
        let before = progress(stack, table, tokens, n - 1).stack;
        lemma_total_numeric(before);
        reveal_with_fuel(Term::numeric, 3);
        if before.len() >= 2 {
            assert(before[before.len() - 1].numeric());
            assert(before[before.len() - 2].numeric());
        }
        let after = progress(stack, table, tokens, n).stack;
        assert forall|i: int| 0 <= i < after.len() implies (#[trigger] after[i]).numeric() by {
            if i < before.len() {
                assert(before[i].numeric());
            }
        }
    }
}

/// The table of the usual units of length holds number literals only.
pub proof fn law_length_factors_are_numbers()
    ensures
        table_numeric(length_factors()),
{
    reveal_strlit("1000.0");
    reveal_strlit("1.0");
    reveal_strlit("0.01");
    reveal_strlit("0.001");
    reveal_strlit("1609.344");
    reveal_strlit("0.9144");
    reveal_strlit("0.3048");
    reveal_strlit("0.0254");
    reveal_with_fuel(digit_run, 5);
    assert(number_literal("1000.0"@));
    assert(number_literal("1.0"@));
    assert(number_literal("0.01"@));
    assert(number_literal("0.001"@));
    assert(number_literal("1609.344"@));
    assert(number_literal("0.9144"@));
    assert(number_literal("0.3048"@));
    assert(number_literal("0.0254"@));
}

} // verus!
