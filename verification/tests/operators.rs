use lox_core::interpreter::Interpreter;
use lox_core::number::Number;
use lox_core::operators::binary_op;
use lox_core::operators::combine;
use lox_core::operators::index_value;
use lox_core::operators::join_strings;
use lox_core::operators::split_chars;
use lox_core::operators::unary_op;
use lox_core::operators::wrap;
use lox_core::render::text_of;
use lox_core::token::TokenType;
use lox_core::value::Literal;

fn n(x: f64) -> Option<Literal> {
    Some(Literal::Number(Number::from_bits(x.to_bits())))
}

fn strong_n(x: f64) -> Option<Literal> {
    Some(Literal::StrongNumber(Number::from_bits(x.to_bits())))
}

fn s(t: &str) -> Option<Literal> {
    Some(Literal::String(t.to_string()))
}

fn b(x: bool) -> Option<Literal> {
    Some(Literal::Boolean(x))
}

fn list(items: Vec<Option<Literal>>) -> Option<Literal> {
    Some(Literal::Collection(items))
}

fn shown(v: &Option<Literal>) -> String {
    text_of(v, false)
}

fn as_f64(v: &Option<Literal>) -> f64 {
    match v {
        Some(Literal::Number(x)) => f64::from_bits(x.to_bits()),
        Some(Literal::StrongNumber(x)) => f64::from_bits(x.to_bits()),
        _ => panic!("not a number"),
    }
}

#[test]
fn equality_of_each_comparable_kind() {
    let i = Interpreter::new();
    assert!(matches!(i.is_equal(None, None), Some(Literal::Boolean(true))));
    assert!(matches!(i.is_equal(b(true), b(true)), Some(Literal::Boolean(true))));
    assert!(matches!(i.is_equal(b(true), b(false)), Some(Literal::Boolean(false))));
    assert!(matches!(i.is_equal(n(1.5), n(1.5)), Some(Literal::Boolean(true))));
    assert!(matches!(i.is_equal(n(1.5), n(2.5)), Some(Literal::Boolean(false))));
    assert!(matches!(i.is_equal(s("ab"), s("ab")), Some(Literal::Boolean(true))));
    assert!(matches!(i.is_equal(s("ab"), s("ba")), Some(Literal::Boolean(false))));
}

#[test]
fn nan_is_not_equal_to_itself() {
    let i = Interpreter::new();
    assert!(matches!(i.is_equal(n(f64::NAN), n(f64::NAN)), Some(Literal::Boolean(false))));
    assert!(matches!(i.is_not_equal(n(f64::NAN), n(f64::NAN)), Some(Literal::Boolean(true))));
}

#[test]
fn the_two_zeros_are_equal() {
    let i = Interpreter::new();
    assert!(matches!(i.is_equal(n(0.0), n(-0.0)), Some(Literal::Boolean(true))));
    assert!(matches!(i.is_not_equal(n(0.0), n(-0.0)), Some(Literal::Boolean(false))));
}

#[test]
fn nil_beside_a_value_is_unequal() {
    let i = Interpreter::new();
    assert!(matches!(i.is_equal(None, n(1.0)), Some(Literal::Boolean(false))));
    assert!(matches!(i.is_equal(s("x"), None), Some(Literal::Boolean(false))));
    assert!(matches!(i.is_not_equal(None, n(1.0)), Some(Literal::Boolean(true))));
    assert!(matches!(i.is_not_equal(None, None), Some(Literal::Boolean(false))));
}

#[test]
fn values_of_two_kinds_are_not_comparable() {
    let i = Interpreter::new();
    assert!(i.is_equal(n(1.0), s("1")).is_none());
    assert!(i.is_not_equal(n(1.0), s("1")).is_none());
    assert!(i.is_equal(n(1.0), list(vec![])).is_none());
    assert!(i.is_equal(list(vec![n(1.0)]), list(vec![n(1.0)])).is_none());
    assert!(i.is_equal(strong_n(1.0), strong_n(1.0)).is_none());
}

#[test]
fn truthiness_of_values() {
    let i = Interpreter::new();
    assert!(matches!(i.is_truthy(None), Some(Literal::Boolean(false))));
    assert!(matches!(i.is_truthy(b(false)), Some(Literal::Boolean(false))));
    assert!(matches!(i.is_truthy(b(true)), Some(Literal::Boolean(true))));
    assert!(matches!(i.is_truthy(n(0.0)), Some(Literal::Boolean(true))));
    assert!(matches!(i.is_truthy(s("")), Some(Literal::Boolean(true))));
    assert!(matches!(i.is_truthy(list(vec![])), Some(Literal::Boolean(true))));
    assert!(matches!(i.is_truthy(Some(Literal::StrongBoolean(false))), Some(Literal::Boolean(true))));
}

#[test]
fn flipping_twice_gives_the_truthiness() {
    let i = Interpreter::new();
    for v in [None, b(true), b(false), n(0.0), s("x")] {
        let expected = i.is_truthy(lox_core::value::copy_slot(&v));
        let twice = i.is_truthy_flip(i.is_truthy_flip(v));
        assert_eq!(shown(&twice), shown(&expected));
    }
}

#[test]
fn flipping_a_collection_reverses_it() {
    let i = Interpreter::new();
    let once = i.is_truthy_flip(list(vec![n(1.0), s("two"), None]));
    assert_eq!(shown(&once), "[nil, two, 1]");
    let twice = i.is_truthy_flip(once);
    assert_eq!(shown(&twice), "[1, two, nil]");
    assert_eq!(shown(&i.is_truthy_flip(list(vec![]))), "[]");
}

#[test]
fn flipping_other_values() {
    let i = Interpreter::new();
    assert!(matches!(i.is_truthy_flip(None), Some(Literal::Boolean(true))));
    assert!(matches!(i.is_truthy_flip(b(true)), Some(Literal::Boolean(false))));
    assert!(matches!(i.is_truthy_flip(n(3.0)), Some(Literal::Boolean(false))));
}

#[test]
fn arithmetic_on_two_numbers() {
    assert_eq!(as_f64(&binary_op(TokenType::Plus, n(1.0), n(2.0)).unwrap()), 3.0);
    assert_eq!(as_f64(&binary_op(TokenType::Minus, n(1.0), n(2.5)).unwrap()), -1.5);
    assert_eq!(as_f64(&binary_op(TokenType::Star, n(4.0), n(2.5)).unwrap()), 10.0);
    assert_eq!(as_f64(&binary_op(TokenType::Slash, n(1.0), n(4.0)).unwrap()), 0.25);
    assert_eq!(as_f64(&binary_op(TokenType::Plus, n(0.1), n(0.2)).unwrap()), 0.1 + 0.2);
    assert_eq!(as_f64(&binary_op(TokenType::Slash, n(1.0), n(3.0)).unwrap()), 1.0 / 3.0);
}

#[test]
fn division_by_zero_is_infinite_or_nan() {
    assert_eq!(as_f64(&binary_op(TokenType::Slash, n(1.0), n(0.0)).unwrap()), f64::INFINITY);
    assert_eq!(as_f64(&binary_op(TokenType::Slash, n(-1.0), n(0.0)).unwrap()), f64::NEG_INFINITY);
    assert!(as_f64(&binary_op(TokenType::Slash, n(0.0), n(0.0)).unwrap()).is_nan());
}

#[test]
fn remainder_is_never_negative() {
    assert_eq!(as_f64(&binary_op(TokenType::Mod, n(7.0), n(3.0)).unwrap()), 1.0);
    assert_eq!(as_f64(&binary_op(TokenType::Mod, n(-7.0), n(3.0)).unwrap()), 2.0);
    assert_eq!(as_f64(&binary_op(TokenType::Mod, n(7.0), n(-3.0)).unwrap()), 1.0);
    assert_eq!(as_f64(&binary_op(TokenType::Mod, n(-7.0), n(-3.0)).unwrap()), 2.0);
    assert_eq!(as_f64(&binary_op(TokenType::Mod, n(7.5), n(2.0)).unwrap()), 1.5);
    assert!(as_f64(&binary_op(TokenType::Mod, n(7.0), n(0.0)).unwrap()).is_nan());
}

#[test]
fn remainder_agrees_with_the_floor_formula_for_a_positive_divisor() {
    for (x, y) in [(7.0f64, 3.0f64), (-7.0, 3.0), (10.5, 4.0), (-0.5, 2.0), (9.0, 3.0)] {
        let r = as_f64(&binary_op(TokenType::Mod, n(x), n(y)).unwrap());
        assert_eq!(r, x - y * (x / y).floor());
        assert_eq!(r, x.rem_euclid(y));
    }
}

#[test]
fn ordering_of_two_numbers() {
    let truth = |op, x, y| matches!(binary_op(op, n(x), n(y)), Ok(Some(Literal::Boolean(true))));
    assert!(truth(TokenType::Less, 1.0, 2.0));
    assert!(!truth(TokenType::Less, 2.0, 2.0));
    assert!(truth(TokenType::LessEqual, 2.0, 2.0));
    assert!(truth(TokenType::Greater, 3.0, -4.0));
    assert!(!truth(TokenType::Greater, -4.0, 3.0));
    assert!(truth(TokenType::GreaterEqual, -4.0, -4.0));
    assert!(truth(TokenType::Less, -2.0, -1.0));
    assert!(truth(TokenType::Less, -1.0, 0.0));
    assert!(!truth(TokenType::Less, -0.0, 0.0));
    assert!(truth(TokenType::LessEqual, 0.0, -0.0));
    assert!(truth(TokenType::Less, f64::NEG_INFINITY, f64::INFINITY));
    assert!(truth(TokenType::Less, 1e-310, 1e-300));
}

#[test]
fn ordering_with_nan_is_false() {
    for op in [TokenType::Less, TokenType::LessEqual, TokenType::Greater, TokenType::GreaterEqual] {
        assert!(matches!(binary_op(op, n(f64::NAN), n(1.0)), Ok(Some(Literal::Boolean(false)))));
        assert!(matches!(binary_op(op, n(1.0), n(f64::NAN)), Ok(Some(Literal::Boolean(false)))));
    }
}

#[test]
fn plus_joins_strings_and_numbers() {
    assert_eq!(shown(&binary_op(TokenType::Plus, s("ab"), s("cd")).unwrap()), "abcd");
    assert_eq!(shown(&binary_op(TokenType::Plus, s("n="), n(4.0)).unwrap()), "n=4");
    assert_eq!(shown(&binary_op(TokenType::Plus, n(2.5), s("x")).unwrap()), "2.5x");
}

#[test]
fn plus_refuses_other_operands() {
    assert_eq!(binary_op(TokenType::Plus, n(1.0), None).unwrap_err(), "Operands must be Numbers Or Strings.");
    assert_eq!(binary_op(TokenType::Plus, b(true), s("x")).unwrap_err(), "Operands must be Numbers Or Strings.");
    assert_eq!(
        binary_op(TokenType::Plus, strong_n(1.0), n(1.0)).unwrap_err(),
        "Operands must be Numbers Or Strings."
    );
}

#[test]
fn arithmetic_refuses_what_is_no_number() {
    for op in [
        TokenType::Minus,
        TokenType::Star,
        TokenType::Slash,
        TokenType::Mod,
        TokenType::Less,
        TokenType::LessEqual,
        TokenType::Greater,
        TokenType::GreaterEqual,
    ] {
        assert_eq!(binary_op(op, n(1.0), s("x")).unwrap_err(), "Operands must be Numbers.");
        assert_eq!(binary_op(op, None, n(1.0)).unwrap_err(), "Operands must be Numbers.");
    }
}

#[test]
fn binary_equality_operators() {
    assert!(matches!(binary_op(TokenType::EqualEqual, n(1.0), n(1.0)), Ok(Some(Literal::Boolean(true)))));
    assert!(matches!(binary_op(TokenType::BangEqual, n(1.0), n(1.0)), Ok(Some(Literal::Boolean(false)))));
    assert!(matches!(binary_op(TokenType::EqualEqual, n(1.0), s("1")), Ok(None)));
}

#[test]
fn an_operator_that_is_not_binary_is_refused() {
    assert_eq!(binary_op(TokenType::Comma, n(1.0), n(1.0)).unwrap_err(), "Invalid Operands");
}

#[test]
fn unary_minus_negates_a_number() {
    assert_eq!(as_f64(&unary_op(TokenType::Minus, n(2.5)).unwrap()), -2.5);
    assert_eq!(as_f64(&unary_op(TokenType::Minus, n(-2.5)).unwrap()), 2.5);
    assert!(as_f64(&unary_op(TokenType::Minus, n(0.0)).unwrap()).is_sign_negative());
    assert_eq!(unary_op(TokenType::Minus, s("x")).unwrap_err(), "Operand must be a Number.");
    assert_eq!(unary_op(TokenType::Minus, None).unwrap_err(), "Operand must be a Number.");
}

#[test]
fn hash_counts_the_items_of_a_collection() {
    assert_eq!(as_f64(&unary_op(TokenType::Hash, list(vec![n(1.0), None, s("x")])).unwrap()), 3.0);
    assert_eq!(as_f64(&unary_op(TokenType::Hash, list(vec![])).unwrap()), 0.0);
    assert_eq!(unary_op(TokenType::Hash, s("abc")).unwrap_err(), "Operand must be a List.");
    assert_eq!(unary_op(TokenType::Hash, None).unwrap_err(), "Operand must be a List.");
}

#[test]
fn bang_flips() {
    assert!(matches!(unary_op(TokenType::Bang, b(false)), Ok(Some(Literal::Boolean(true)))));
    assert_eq!(shown(&unary_op(TokenType::Bang, list(vec![n(1.0), n(2.0)])).unwrap()), "[2, 1]");
}

#[test]
fn an_operator_that_is_not_unary_is_refused() {
    assert_eq!(unary_op(TokenType::Star, n(1.0)).unwrap_err(), "Operand type not found.");
}

#[test]
fn an_index_wraps_by_the_length() {
    assert_eq!(wrap(0, 3), 0);
    assert_eq!(wrap(2, 3), 2);
    assert_eq!(wrap(3, 3), 0);
    assert_eq!(wrap(7, 3), 1);
    assert_eq!(wrap(-1, 3), 2);
    assert_eq!(wrap(-3, 3), 0);
    assert_eq!(wrap(-4, 3), 2);
    assert_eq!(wrap(i32::MIN, 3), 1);
    assert_eq!(wrap(i32::MAX, 3), 1);
    assert_eq!(wrap(-5, 1), 0);
}

#[test]
fn indexing_a_collection_wraps() {
    let items = vec![n(10.0), n(20.0), n(30.0)];
    let at = |x: f64| shown(&index_value(&items, Number::from_bits(x.to_bits())));
    assert_eq!(at(0.0), "10");
    assert_eq!(at(2.0), "30");
    assert_eq!(at(3.0), "10");
    assert_eq!(at(-1.0), "30");
    assert_eq!(at(-4.0), "30");
    assert_eq!(at(1.9), "20");
    assert_eq!(at(-0.5), "10");
    assert_eq!(at(f64::NAN), "10");
}

#[test]
fn indexing_an_empty_collection_gives_nil() {
    let items: Vec<Option<Literal>> = vec![];
    assert!(index_value(&items, Number::from_bits(5.0f64.to_bits())).is_none());
}

#[test]
fn a_string_splits_into_code_points_and_joins_again() {
    let text = "a\u{e9}\u{4e16}z".to_string();
    let parts = split_chars(&text);
    assert_eq!(parts.len(), 4);
    assert_eq!(shown(&parts[1]), "\u{e9}");
    assert_eq!(shown(&parts[2]), "\u{4e16}");
    assert_eq!(join_strings(&parts), text);
    assert_eq!(split_chars(&String::new()).len(), 0);
}

#[test]
fn joining_leaves_out_what_is_no_string() {
    let parts = vec![s("a"), n(1.0), None, s("bc")];
    assert_eq!(join_strings(&parts), "abc");
}

#[test]
fn plain_assignment_stores_the_value() {
    assert_eq!(shown(&combine(None, n(1.0), s("x")).unwrap()), "x");
    assert_eq!(shown(&combine(None, None, n(2.0)).unwrap()), "2");
    assert!(combine(None, n(1.0), None).unwrap().is_none());
}

#[test]
fn a_strong_number_accepts_numbers_only() {
    assert!(matches!(combine(None, strong_n(1.0), n(5.0)), Ok(Some(Literal::StrongNumber(_)))));
    assert!(matches!(combine(None, strong_n(1.0), strong_n(5.0)), Ok(Some(Literal::StrongNumber(_)))));
    assert_eq!(as_f64(&combine(None, strong_n(1.0), n(5.0)).unwrap()), 5.0);
    assert_eq!(combine(None, strong_n(1.0), s("x")).unwrap_err(), "Invalid assign");
    assert_eq!(combine(None, strong_n(1.0), b(true)).unwrap_err(), "Invalid assign");
    assert_eq!(combine(None, strong_n(1.0), None).unwrap_err(), "Invalid assign");
}

#[test]
fn a_strong_string_accepts_strings_only() {
    let held = || Some(Literal::StrongString("a".to_string()));
    assert!(matches!(combine(None, held(), s("b")), Ok(Some(Literal::StrongString(_)))));
    assert!(matches!(
        combine(None, held(), Some(Literal::StrongString("c".to_string()))),
        Ok(Some(Literal::StrongString(_)))
    ));
    assert_eq!(shown(&combine(None, held(), s("b")).unwrap()), "b");
    assert_eq!(combine(None, held(), n(1.0)).unwrap_err(), "Invalid assign");
}

#[test]
fn a_strong_boolean_accepts_booleans_only() {
    let held = || Some(Literal::StrongBoolean(true));
    assert!(matches!(combine(None, held(), b(false)), Ok(Some(Literal::StrongBoolean(false)))));
    assert!(matches!(
        combine(None, held(), Some(Literal::StrongBoolean(true))),
        Ok(Some(Literal::StrongBoolean(true)))
    ));
    assert_eq!(combine(None, held(), n(0.0)).unwrap_err(), "Invalid assign");
}

#[test]
fn compound_assignment_on_numbers() {
    assert_eq!(as_f64(&combine(Some(TokenType::Plus), n(1.0), n(2.0)).unwrap()), 3.0);
    assert_eq!(as_f64(&combine(Some(TokenType::Minus), n(1.0), n(2.0)).unwrap()), -1.0);
    assert_eq!(as_f64(&combine(Some(TokenType::Star), n(3.0), n(2.0)).unwrap()), 6.0);
    assert_eq!(as_f64(&combine(Some(TokenType::Slash), n(3.0), n(2.0)).unwrap()), 1.5);
    assert_eq!(as_f64(&combine(Some(TokenType::Mod), n(-7.0), n(3.0)).unwrap()), 2.0);
}

#[test]
fn compound_assignment_keeps_a_number_strong() {
    for op in [TokenType::Plus, TokenType::Minus, TokenType::Star, TokenType::Slash, TokenType::Mod] {
        assert!(matches!(combine(Some(op), strong_n(8.0), n(2.0)), Ok(Some(Literal::StrongNumber(_)))));
        assert!(matches!(combine(Some(op), strong_n(8.0), strong_n(2.0)), Ok(Some(Literal::StrongNumber(_)))));
    }
    assert_eq!(as_f64(&combine(Some(TokenType::Slash), strong_n(8.0), n(2.0)).unwrap()), 4.0);
    assert!(matches!(combine(Some(TokenType::Plus), n(8.0), n(2.0)), Ok(Some(Literal::Number(_)))));
}

#[test]
fn plus_assignment_joins_text() {
    assert_eq!(shown(&combine(Some(TokenType::Plus), s("a"), s("b")).unwrap()), "ab");
    assert_eq!(shown(&combine(Some(TokenType::Plus), s("a"), n(1.0)).unwrap()), "a1");
    assert_eq!(shown(&combine(Some(TokenType::Plus), n(1.0), s("a")).unwrap()), "1a");
}

#[test]
fn plus_assignment_appends_to_a_collection() {
    assert_eq!(shown(&combine(Some(TokenType::Plus), list(vec![n(1.0)]), s("x")).unwrap()), "[1, x]");
    assert_eq!(shown(&combine(Some(TokenType::Plus), list(vec![]), None).unwrap()), "[nil]");
    assert_eq!(
        shown(&combine(Some(TokenType::Plus), list(vec![n(1.0)]), list(vec![n(2.0)])).unwrap()),
        "[1, [2]]"
    );
}

#[test]
fn minus_assignment_removes_from_a_collection() {
    let three = || list(vec![n(1.0), n(2.0), n(3.0)]);
    assert_eq!(shown(&combine(Some(TokenType::Minus), three(), n(0.0)).unwrap()), "[2, 3]");
    assert_eq!(shown(&combine(Some(TokenType::Minus), three(), n(-1.0)).unwrap()), "[1, 2]");
    assert_eq!(shown(&combine(Some(TokenType::Minus), three(), n(4.0)).unwrap()), "[1, 3]");
}

#[test]
fn removing_the_last_item_gives_nil() {
    assert!(combine(Some(TokenType::Minus), list(vec![n(1.0)]), n(0.0)).unwrap().is_none());
    assert!(combine(Some(TokenType::Minus), list(vec![n(1.0)]), n(7.0)).unwrap().is_none());
}

#[test]
fn removing_from_an_empty_collection_leaves_it() {
    assert_eq!(shown(&combine(Some(TokenType::Minus), list(vec![]), n(0.0)).unwrap()), "[]");
}

#[test]
fn compound_assignment_to_nil_is_refused() {
    assert_eq!(combine(Some(TokenType::Plus), None, n(1.0)).unwrap_err(), "Cannot add Number from Nil.");
    assert_eq!(combine(Some(TokenType::Minus), None, n(1.0)).unwrap_err(), "Cannot subtract Number from Nil.");
    assert_eq!(combine(Some(TokenType::Plus), None, s("x")).unwrap_err(), "Operands must be Numbers Or Strings.");
    assert_eq!(combine(Some(TokenType::Minus), None, s("x")).unwrap_err(), "Operands must be Numbers.");
    assert_eq!(combine(Some(TokenType::Star), None, n(1.0)).unwrap_err(), "Operands must be Numbers.");
}

#[test]
fn compound_assignment_refuses_other_operands() {
    assert_eq!(combine(Some(TokenType::Plus), b(true), n(1.0)).unwrap_err(), "Operands must be Numbers Or Strings.");
    assert_eq!(combine(Some(TokenType::Minus), s("a"), n(1.0)).unwrap_err(), "Operands must be Numbers.");
    assert_eq!(combine(Some(TokenType::Minus), list(vec![n(1.0)]), s("a")).unwrap_err(), "Operands must be Numbers.");
    assert_eq!(combine(Some(TokenType::Star), s("a"), n(2.0)).unwrap_err(), "Operands must be Numbers.");
    assert_eq!(combine(Some(TokenType::Slash), n(2.0), None).unwrap_err(), "Operands must be Numbers.");
    assert_eq!(combine(Some(TokenType::Mod), n(2.0), s("x")).unwrap_err(), "Operands must be Numbers.");
}

#[test]
fn an_operator_that_does_not_assign_is_refused() {
    assert_eq!(combine(Some(TokenType::Less), n(1.0), n(2.0)).unwrap_err(), "Invalid assign");
    assert_eq!(combine(Some(TokenType::Bang), None, None).unwrap_err(), "Invalid assign");
}

#[test]
fn number_text_of_whole_numbers() {
    let t = |x: f64| Number::from_bits(x.to_bits()).to_text();
    assert_eq!(t(7.0), "7");
    assert_eq!(t(13.0), "13");
    assert_eq!(t(-2.0), "-2");
    assert_eq!(t(0.0), "0");
    assert_eq!(t(-0.0), "-0");
    assert_eq!(t(100000.0), "100000");
    assert_eq!(t(1e15), "1000000000000000");
    assert_eq!(t(1e18), "1000000000000000000");
    assert_eq!(t(9007199254740993.0), "9007199254740992");
    assert_eq!(t(123456789012345678.0), "123456789012345680");
    assert_eq!(t(-9.2e18), "-9200000000000000000");
    assert_eq!(t(-9223372036854775808.0), "-9223372036854775808");
}

#[test]
fn number_text_of_fractions_reads_back() {
    let t = |x: f64| Number::from_bits(x.to_bits()).to_text();
    assert_eq!(t(0.5), "0.5");
    assert_eq!(t(0.1), "0.1");
    assert_eq!(t(-2.5), "-2.5");
    assert_eq!(t(4.35), "4.35");
    assert_eq!(t(0.1 + 0.2), "0.30000000000000004");
    assert_eq!(t(1.0 / 3.0), "0.3333333333333333");
    assert_eq!(t(2.0 / 3.0), "0.6666666666666666");
    assert_eq!(t(123456.789), "123456.789");
    assert_eq!(t(0.000001), "0.000001");
    assert_eq!(t(2.5e-7), "0.00000025");
    for x in [0.1f64, 0.1 + 0.2, 1.0 / 3.0, 1e-300, 5e-324, 1.7976931348623157e308, 3.141592653589793] {
        let back: f64 = t(x).replace("E", "e").parse().unwrap();
        assert_eq!(back.to_bits(), x.to_bits());
    }
}

#[test]
fn number_text_of_what_is_no_finite_fraction() {
    let t = |x: f64| Number::from_bits(x.to_bits()).to_text();
    assert_eq!(t(f64::NAN), "NaN");
    assert_eq!(t(f64::INFINITY), "inf");
    assert_eq!(t(f64::NEG_INFINITY), "-inf");
    assert_eq!(t(1e21), "1.0E+21");
    assert_eq!(t(9223372036854775808.0), "9.2233720368547758E+18");
}

#[test]
fn a_text_is_taken_where_it_reads_back() {
    let x = Number::from_bits(1.5f64.to_bits());
    assert!(x.is_read_back(Some(1.5f64.to_bits())));
    assert!(!x.is_read_back(Some(2.5f64.to_bits())));
    assert!(!x.is_read_back(None));
    assert!(x.is_shown_whole(1, true));
    assert!(!x.is_shown_whole(1, false));
    assert!(!Number::from_bits((-0.0f64).to_bits()).is_shown_whole(0, true));
    assert!(Number::from_bits(0).is_shown_whole(0, true));
    assert_eq!(Number::from_bits(0.1f64.to_bits()).to_fraction_text(), "0.1");
}

#[test]
fn counts_become_numbers() {
    assert_eq!(f64::from_bits(Number::from_count(0).to_bits()), 0.0);
    assert_eq!(f64::from_bits(Number::from_count(3).to_bits()), 3.0);
    assert_eq!(f64::from_bits(Number::from_count(1000000).to_bits()), 1e6);
}

#[test]
fn numbers_are_cut_to_integers_toward_zero() {
    let cut = |x: f64| Number::from_bits(x.to_bits()).to_i32();
    assert_eq!(cut(2.0), 2);
    assert_eq!(cut(2.9), 2);
    assert_eq!(cut(-2.9), -2);
    assert_eq!(cut(f64::NAN), 0);
    assert_eq!(cut(1e10), i32::MAX);
    assert_eq!(cut(-1e10), i32::MIN);
    assert_eq!(cut(f64::INFINITY), i32::MAX);
}

#[test]
fn number_helpers_follow_ieee() {
    let of = |x: f64| Number::from_bits(x.to_bits());
    assert!(of(f64::NAN).nan());
    assert!(!of(f64::INFINITY).nan());
    assert!(!of(1.0).nan());
    assert_eq!(of(-3.0).abs().to_bits(), 3.0f64.to_bits());
    assert_eq!(of(3.0).neg().to_bits(), (-3.0f64).to_bits());
    assert_eq!(Number::unit().to_bits(), 1.0f64.to_bits());
    assert!(of(1.0).eq(of(1.0)));
    assert!(!of(1.0).eq(of(2.0)));
    assert!(of(1.0).lt(of(2.0)));
    assert!(of(2.0).gt(of(1.0)));
    assert!(of(2.0).ge(of(2.0)));
    assert!(of(2.0).le(of(2.0)));
    assert_eq!(of(7.0).rem_euclid(of(-3.0)).to_bits(), 1.0f64.to_bits());
}

#[test]
fn a_remainder_below_zero_is_raised_by_the_divisor() {
    let of = |x: f64| Number::from_bits(x.to_bits());
    assert_eq!(of(-1.0).raise(of(3.0)).to_bits(), 2.0f64.to_bits());
    assert_eq!(of(-1.0).raise(of(-3.0)).to_bits(), 2.0f64.to_bits());
    assert_eq!(of(1.0).raise(of(3.0)).to_bits(), 1.0f64.to_bits());
    assert_eq!(of(0.0).raise(of(3.0)).to_bits(), 0.0f64.to_bits());
    assert_eq!(of(-0.0).raise(of(3.0)).to_bits(), (-0.0f64).to_bits());
    assert!(of(f64::NAN).raise(of(3.0)).nan());
}
