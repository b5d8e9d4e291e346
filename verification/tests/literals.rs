use unit_rpn::literal::{characters, is_number_literal, recognize};

#[test]
fn decimal_numbers_are_literals() {
    for text in ["0", "1", "42", "3.14", "5.", ".5", "+1", "-1", "+.5", "-5.", "007", "1e5", "1E5",
        "1e+5", "1e-5", "1.5e10", "5.e3", ".5E-3", "-2.5e-3", "0.0", "1609.344"]
    {
        assert!(is_number_literal(text), "{}", text);
    }
}

#[test]
fn special_words_are_literals() {
    for text in ["inf", "INF", "Inf", "+inf", "-inf", "infinity", "Infinity", "-INFINITY", "nan",
        "NaN", "+nan", "-NAN"]
    {
        assert!(is_number_literal(text), "{}", text);
    }
}

#[test]
fn other_tokens_are_no_literals() {
    for text in ["", "+", "-", ".", "+.", "e5", ".e5", "1e", "1e+", "1e-", "1e5.", "1.2.3", "1 ",
        " 1", "1km", "km", "in", "infi", "infinit", "infinityy", "na", "nann", "++1", "+-1", "1+",
        "0x10", "1_000", "1,5", "1e5e5", "mean", "*", "/", "1f", "--1", "\u{661}", "1\u{e9}",
        "i\u{130}f"]
    {
        assert!(!is_number_literal(text), "{}", text);
    }
}

#[test]
fn literals_are_what_the_standard_parser_takes() {
    let alphabet = ['0', '7', '+', '-', '.', 'e', 'E', 'i', 'n', 'f', 'a', 'N', 't', 'y', ' '];
    let mut words: Vec<String> = vec![String::new()];
    let mut from = 0;
    for _ in 0..4 {
        let upto = words.len();
        for i in from..upto {
            for c in alphabet {
                let mut w = words[i].clone();
                w.push(c);
                words.push(w);
            }
        }
        from = upto;
    }
    for w in words {
        assert_eq!(is_number_literal(&w), w.parse::<f64>().is_ok(), "{:?}", w);
    }
}

#[test]
fn characters_come_in_order() {
    assert_eq!(characters("a\u{e9}z"), vec!['a', '\u{e9}', 'z']);
    assert_eq!(characters(""), Vec::<char>::new());
}

#[test]
fn recognize_agrees_on_characters() {
    assert!(recognize(&vec!['-', '1', '.', '5']));
    assert!(!recognize(&vec!['1', 'k', 'm']));
    assert!(!recognize(&Vec::new()));
}
