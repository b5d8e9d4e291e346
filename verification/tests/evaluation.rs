use unit_rpn::calculator::{CalcError, Calculator};
use unit_rpn::evaluator::{read_operator, Operator, Report};
use unit_rpn::literal::characters;
use unit_rpn::number::Number;
use unit_rpn::table::Conversions;
use unit_rpn::unit::Unit;

fn approx(n: &Number) -> f64 {
    match n {
        Number::Literal(text) => text.parse::<f64>().unwrap(),
        Number::Whole(w) => *w as f64,
        Number::Sum(l, r) => approx(l) + approx(r),
        Number::Product(l, r) => approx(l) * approx(r),
        Number::Quotient(l, r) => approx(l) / approx(r),
    }
}

fn tokens(words: &[&str]) -> Vec<String> {
    words.iter().map(|w| w.to_string()).collect()
}

fn run(words: &[&str]) -> (Calculator, Report) {
    let mut calc = Calculator::new(Conversions::lengths());
    let report = calc.evaluate(&tokens(words));
    (calc, report)
}

fn clean() -> Report {
    Report { short: Vec::new(), unknown: None }
}

#[test]
fn plain_number_is_pushed_without_labels() {
    let (calc, report) = run(&["2.5"]);
    assert_eq!(report, clean());
    assert_eq!(calc.stack.len(), 1);
    let top = &calc.stack[0];
    assert_eq!(top.value, Number::Literal("2.5".to_string()));
    assert_eq!(top.numerator, "");
    assert_eq!(top.denominator, "");
    assert_eq!(top.factor, Number::Whole(1));
    assert_eq!(approx(&top.value), 2.5);
    assert_eq!(approx(&top.factor), 1.0);
}

#[test]
fn kilometre_token_takes_the_table_factor() {
    let (calc, report) = run(&["1km"]);
    assert_eq!(report, clean());
    assert_eq!(calc.stack.len(), 1);
    let top = &calc.stack[0];
    assert_eq!(top.factor, Number::Literal("1000.0".to_string()));
    assert_eq!(approx(&top.factor), 1000.0);
    assert_eq!(top.numerator, "1");
    assert_eq!(top.denominator, "km");
    assert_eq!(approx(&top.value), 1.0);
}

#[test]
fn suffix_token_keeps_its_whole_prefix_as_label() {
    let (calc, _) = run(&["12.5ft"]);
    let top = &calc.stack[0];
    assert_eq!(top.numerator, "12.5");
    assert_eq!(top.denominator, "ft");
    assert_eq!(approx(&top.value), 1.0);
    assert_eq!(approx(&top.factor), 0.3048);
}

#[test]
fn bare_suffix_has_an_empty_numerator() {
    let (calc, report) = run(&["in"]);
    assert_eq!(report, clean());
    let top = &calc.stack[0];
    assert_eq!(top.numerator, "");
    assert_eq!(top.denominator, "in");
    assert_eq!(approx(&top.factor), 0.0254);
}

#[test]
fn prefix_may_hold_any_characters() {
    let (calc, report) = run(&["\u{b5}\u{e9}km"]);
    assert_eq!(report, clean());
    assert_eq!(calc.stack[0].numerator, "\u{b5}\u{e9}");
    assert_eq!(calc.stack[0].denominator, "km");
}

#[test]
fn one_letter_suffix_is_never_found() {
    let (calc, report) = run(&["5m"]);
    assert_eq!(report.unknown, Some(0));
    assert_eq!(calc.stack.len(), 0);
    let (_, report) = run(&["m"]);
    assert_eq!(report.unknown, Some(0));
}

#[test]
fn suffix_lookup_is_case_sensitive() {
    let (_, report) = run(&["1KM"]);
    assert_eq!(report.unknown, Some(0));
}

#[test]
fn unknown_token_stops_the_run() {
    let mut calc = Calculator::new(Conversions::lengths());
    assert_eq!(calc.apply("foo"), Err(CalcError::UnknownToken));
    assert_eq!(calc.stack.len(), 0);
    let (calc, report) = run(&["1", "2", "foo", "+", "3"]);
    assert_eq!(report, Report { short: Vec::new(), unknown: Some(2) });
    assert_eq!(calc.stack.len(), 2);
    assert_eq!(approx(&calc.stack[0].value), 1.0);
    assert_eq!(approx(&calc.stack[1].value), 2.0);
}

#[test]
fn short_tokens_are_unknown() {
    let mut calc = Calculator::new(Conversions::lengths());
    assert_eq!(calc.apply(""), Err(CalcError::UnknownToken));
    assert_eq!(calc.apply("x"), Err(CalcError::UnknownToken));
    assert_eq!(calc.apply("%"), Err(CalcError::UnknownToken));
    assert_eq!(calc.stack.len(), 0);
}

#[test]
fn add_without_operands_leaves_the_stack() {
    let mut calc = Calculator::new(Conversions::lengths());
    assert_eq!(calc.add(), Err(CalcError::NotEnoughOperands));
    assert_eq!(calc.stack.len(), 0);
    calc.push(Number::literal("7"), String::from("a"), String::from("b"), Number::whole(1));
    assert_eq!(calc.add(), Err(CalcError::NotEnoughOperands));
    assert_eq!(calc.stack.len(), 1);
    assert_eq!(
        calc.stack[0],
        Unit::new(Number::literal("7"), String::from("a"), String::from("b"), Number::whole(1))
    );
}

#[test]
fn every_operator_refuses_a_short_stack() {
    let mut calc = Calculator::new(Conversions::new());
    calc.push(Number::literal("7"), String::new(), String::new(), Number::whole(1));
    assert_eq!(calc.sub(), Err(CalcError::NotEnoughOperands));
    assert_eq!(calc.mul(), Err(CalcError::NotEnoughOperands));
    assert_eq!(calc.div(), Err(CalcError::NotEnoughOperands));
    assert_eq!(calc.operate(Operator::Add), Err(CalcError::NotEnoughOperands));
    assert_eq!(calc.stack.len(), 1);
    assert_eq!(approx(&calc.stack[0].value), 7.0);
    let mut empty = Calculator::new(Conversions::new());
    assert_eq!(empty.mean(), Err(CalcError::NotEnoughOperands));
    assert_eq!(empty.stack.len(), 0);
}

#[test]
fn short_operator_is_reported_and_skipped() {
    let (calc, report) = run(&["1", "+", "2", "*", "mean", "/"]);
    assert_eq!(report, Report { short: vec![1, 5], unknown: None });
    assert_eq!(calc.stack.len(), 1);
    assert_eq!(approx(&calc.stack[0].value), 2.0);
    let (calc, report) = run(&["mean", "3"]);
    assert_eq!(report, Report { short: vec![0], unknown: None });
    assert_eq!(calc.stack.len(), 1);
}

#[test]
fn stack_length_counts_operands_and_operators() {
    let (calc, report) = run(&["1", "2", "3", "4", "5", "+", "*", "-", "/"]);
    assert_eq!(report, clean());
    assert_eq!(calc.stack.len(), 5 - 4);
    let (calc, report) = run(&["1", "2km", "3", "."]);
    assert_eq!(report, clean());
    assert_eq!(calc.stack.len(), 3 - 1);
    let (calc, _) = run(&[]);
    assert_eq!(calc.stack.len(), 0);
}

#[test]
fn product_regroups() {
    let (left, _) = run(&["2", "3", "4", "*", "*"]);
    let (right, _) = run(&["2", "3", "*", "4", "*"]);
    assert_eq!(left.stack.len(), 1);
    assert_eq!(right.stack.len(), 1);
    assert_eq!(approx(&left.stack[0].value), 24.0);
    assert_eq!(approx(&right.stack[0].value), 24.0);
    assert_eq!(approx(&left.stack[0].factor), 1.0);
}

#[test]
fn number_over_itself_is_one() {
    let (calc, report) = run(&["7.25", "7.25", "/"]);
    assert_eq!(report, clean());
    assert_eq!(calc.stack.len(), 1);
    assert_eq!(approx(&calc.stack[0].value), 1.0);
    assert_eq!(calc.stack[0].numerator, "");
    assert_eq!(calc.stack[0].denominator, "");
}

#[test]
fn zero_over_zero_is_no_number() {
    let (calc, report) = run(&["0", "0", "/"]);
    assert_eq!(report, clean());
    assert!(approx(&calc.stack[0].value).is_nan());
    let (calc, _) = run(&["1", "0", "/"]);
    assert_eq!(approx(&calc.stack[0].value), f64::INFINITY);
}

#[test]
fn mean_replaces_the_stack() {
    let (calc, report) = run(&["2.0", "4.0", "6.0", "mean"]);
    assert_eq!(report, clean());
    assert_eq!(calc.stack.len(), 1);
    let top = &calc.stack[0];
    assert_eq!(approx(&top.value), 4.0);
    assert_eq!(top.numerator, "");
    assert_eq!(top.denominator, "");
    assert_eq!(approx(&top.factor), 1.0);
    let mut calc = calc;
    assert!(calc.pop().is_some());
    assert_eq!(calc.stack.len(), 0);
    assert!(calc.pop().is_none());
}

#[test]
fn mean_adds_from_the_bottom() {
    let (calc, _) = run(&["1", "2", "mean"]);
    let expected = Number::whole(0)
        .plus(Number::literal("1"))
        .plus(Number::literal("2"))
        .over(Number::whole(2));
    assert_eq!(calc.stack[0].value, expected);
    assert_eq!(approx(&calc.stack[0].value), 1.5);
}

#[test]
fn mean_drops_labels() {
    let (calc, _) = run(&["1km", "3ft", "mean"]);
    assert_eq!(calc.stack.len(), 1);
    assert_eq!(calc.stack[0].label(), "/");
    assert_eq!(approx(&calc.stack[0].value), 1.0);
}

#[test]
fn multiply_joins_labels_top_first() {
    let (calc, _) = run(&["2km", "3ft", "*"]);
    let top = &calc.stack[0];
    assert_eq!(top.numerator, "32");
    assert_eq!(top.denominator, "ftkm");
    assert_eq!(approx(&top.value), 1.0);
    assert_eq!(approx(&top.factor), 0.3048 * 1000.0);
    assert_eq!(top.value, Number::whole(1).times(Number::whole(1)));
}

#[test]
fn multiply_values() {
    let (calc, _) = run(&["6", "7", "."]);
    assert_eq!(approx(&calc.stack[0].value), 42.0);
    assert_eq!(calc.stack[0].value, Number::literal("7").times(Number::literal("6")));
}

#[test]
fn divide_crosses_labels() {
    let (calc, _) = run(&["2km", "3ft", "/"]);
    let top = &calc.stack[0];
    assert_eq!(top.numerator, "ft2");
    assert_eq!(top.denominator, "3km");
    assert_eq!(approx(&top.factor), 1000.0 / 0.3048);
    let (calc, _) = run(&["6", "4", "/"]);
    assert_eq!(approx(&calc.stack[0].value), 1.5);
    assert_eq!(calc.stack[0].value, Number::literal("6").over(Number::literal("4")));
}

#[test]
fn add_rescales_the_second_by_the_top() {
    let (calc, report) = run(&["6", "3", "+"]);
    assert_eq!(report, clean());
    assert_eq!(calc.stack.len(), 1);
    let top = &calc.stack[0];
    assert_eq!(approx(&top.value), 6.0 * (1.0 * 1.0) / 3.0);
    assert_eq!(approx(&top.factor), 1.0);
    assert_eq!(top.label(), "/");
}

#[test]
fn add_and_sub_agree() {
    let (plus, _) = run(&["2km", "5ft", "+"]);
    let (minus, _) = run(&["2km", "5ft", "-"]);
    assert_eq!(plus.stack, minus.stack);
    let top = &plus.stack[0];
    assert_eq!(top.numerator, "52");
    assert_eq!(top.denominator, "kmft");
    assert_eq!(approx(&top.value), 1.0 * (0.3048 * 1000.0) / 1.0);
    assert_eq!(approx(&top.factor), 0.3048);
}

#[test]
fn add_keeps_shared_labels() {
    let mut calc = Calculator::new(Conversions::new());
    calc.push(Number::literal("10"), String::from("m"), String::from("s"), Number::literal("2"));
    calc.push(Number::literal("4"), String::from("m"), String::from("s"), Number::literal("3"));
    assert_eq!(calc.add(), Ok(()));
    assert_eq!(calc.stack.len(), 1);
    let top = &calc.stack[0];
    assert_eq!(top.numerator, "m");
    assert_eq!(top.denominator, "s");
    assert_eq!(approx(&top.value), 10.0 * (3.0 * 2.0) / 4.0);
    assert_eq!(approx(&top.factor), 3.0);
}

#[test]
fn operators_leave_the_rest_of_the_stack() {
    let (calc, _) = run(&["9", "8km", "2", "3", "*"]);
    assert_eq!(calc.stack.len(), 3);
    assert_eq!(approx(&calc.stack[0].value), 9.0);
    assert_eq!(calc.stack[1].denominator, "km");
    assert_eq!(approx(&calc.stack[2].value), 6.0);
}

#[test]
fn push_and_pop_work_at_the_top() {
    let mut calc = Calculator::new(Conversions::new());
    assert_eq!(calc.pop(), None);
    calc.push(Number::whole(1), String::from("a"), String::new(), Number::whole(1));
    calc.push(Number::whole(2), String::from("b"), String::new(), Number::whole(1));
    let top = calc.pop().unwrap();
    assert_eq!(top.numerator, "b");
    assert_eq!(top.value, Number::Whole(2));
    assert_eq!(calc.stack.len(), 1);
    assert_eq!(calc.stack[0].numerator, "a");
}

#[test]
fn evaluation_goes_on_from_the_stack_it_finds() {
    let mut calc = Calculator::new(Conversions::lengths());
    calc.push(Number::literal("5"), String::new(), String::new(), Number::whole(1));
    let report = calc.evaluate(&tokens(&["4", "*"]));
    assert_eq!(report, clean());
    assert_eq!(calc.stack.len(), 1);
    assert_eq!(approx(&calc.stack[0].value), 20.0);
}

#[test]
fn operators_are_read_before_numbers_and_suffixes() {
    assert_eq!(read_operator(&characters("+")), Some(Operator::Add));
    assert_eq!(read_operator(&characters("-")), Some(Operator::Sub));
    assert_eq!(read_operator(&characters("*")), Some(Operator::Mul));
    assert_eq!(read_operator(&characters(".")), Some(Operator::Mul));
    assert_eq!(read_operator(&characters("/")), Some(Operator::Div));
    assert_eq!(read_operator(&characters("mean")), Some(Operator::Mean));
    assert_eq!(read_operator(&characters("Mean")), None);
    assert_eq!(read_operator(&characters("means")), None);
    assert_eq!(read_operator(&characters("++")), None);
    assert_eq!(read_operator(&characters("%")), None);
    assert_eq!(read_operator(&characters("")), None);
    assert_eq!(read_operator(&characters("1")), None);
}

#[test]
fn special_literals_are_numbers() {
    let (calc, report) = run(&["inf", "-NaN", "+Infinity"]);
    assert_eq!(report, clean());
    assert_eq!(calc.stack.len(), 3);
    assert_eq!(approx(&calc.stack[0].value), f64::INFINITY);
    assert!(approx(&calc.stack[1].value).is_nan());
    assert_eq!(approx(&calc.stack[2].value), f64::INFINITY);
}
