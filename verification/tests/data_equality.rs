//! The equality contract: reflexivity and pointwise pair equality.

use druid_core::Data;

#[test]
fn same_is_reflexive_for_integers() {
    let values: Vec<i64> = vec![0, 1, -1, i64::MAX, i64::MIN, 42];
    for v in values {
        assert!(v.same(&v));
    }
}

#[test]
fn same_is_reflexive_for_bool_and_string() {
    assert!(true.same(&true));
    assert!(false.same(&false));
    let s = String::from("hello");
    assert!(s.same(&s));
    let empty = String::new();
    assert!(empty.same(&empty));
}

#[test]
fn same_distinguishes_different_values() {
    assert!(!1i64.same(&2i64));
    assert!(!true.same(&false));
    assert!(!String::from("a").same(&String::from("b")));
}

#[test]
fn pair_same_is_pointwise() {
    let cases: Vec<((i64, bool), (i64, bool))> = vec![
        ((1, true), (1, true)),
        ((1, true), (1, false)),
        ((1, true), (2, true)),
        ((3, false), (4, true)),
    ];
    for (p, q) in cases {
        let expected = p.0.same(&q.0) && p.1.same(&q.1);
        assert_eq!(p.same(&q), expected);
    }
}

#[test]
fn dup_is_logically_equal() {
    let s = String::from("copy me");
    let d = s.dup();
    assert!(s.same(&d));
    let n = 7i64;
    assert!(n.same(&n.dup()));
}
