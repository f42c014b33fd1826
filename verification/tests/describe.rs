use expr_display::{Describe, Expression, Render, WrapDisplay};

type E = Expression<i32>;

fn atom(number: i32) -> E {
    Expression::Atomic { number }
}

fn negative(base: E) -> E {
    Expression::Negative { base: Box::new(base) }
}

fn concat(lhs: E, rhs: E) -> E {
    Expression::Concat { lhs: Box::new(lhs), rhs: Box::new(rhs) }
}

fn plus(lhs: E, rhs: E) -> E {
    Expression::Plus { lhs: Box::new(lhs), rhs: Box::new(rhs) }
}

fn minus(lhs: E, rhs: E) -> E {
    Expression::Minus { lhs: Box::new(lhs), rhs: Box::new(rhs) }
}

fn times(lhs: E, rhs: E) -> E {
    Expression::Times { lhs: Box::new(lhs), rhs: Box::new(rhs) }
}

fn divide(lhs: E, rhs: E) -> E {
    Expression::Divide { lhs: Box::new(lhs), rhs: Box::new(rhs) }
}

#[test]
fn atomic_describes_as_its_number() {
    assert_eq!(atom(7).describe(), "7");
    assert_eq!(atom(-7).describe(), "-7");
    assert_eq!(atom(7).describe(), atom(7).render());
}

#[test]
fn plus_describes_with_both_fields() {
    assert_eq!(plus(atom(1), atom(2)).describe(), "Plus { lhs: 1, rhs: 2 }");
}

#[test]
fn negative_describes_with_one_field() {
    assert_eq!(negative(atom(1)).describe(), "Negative { lhs: 1 }");
}

#[test]
fn every_binary_variant_describes_by_its_name() {
    assert_eq!(concat(atom(1), atom(2)).describe(), "Concat { lhs: 1, rhs: 2 }");
    assert_eq!(minus(atom(1), atom(2)).describe(), "Minus { lhs: 1, rhs: 2 }");
    assert_eq!(times(atom(1), atom(2)).describe(), "Times { lhs: 1, rhs: 2 }");
    assert_eq!(divide(atom(1), atom(2)).describe(), "Divide { lhs: 1, rhs: 2 }");
}

#[test]
fn describe_nests_without_regard_to_precedence() {
    let e = times(plus(atom(1), atom(2)), negative(atom(3)));
    assert_eq!(
        e.describe(),
        "Times { lhs: Plus { lhs: 1, rhs: 2 }, rhs: Negative { lhs: 3 } }"
    );
    assert_eq!(e.render(), "(1+2)×-3");
}

#[test]
fn describe_shows_lhs_before_rhs() {
    let text = minus(atom(8), atom(9)).describe();
    let lhs = text.find("lhs: 8").unwrap();
    let rhs = text.find("rhs: 9").unwrap();
    assert!(lhs < rhs);
}

#[test]
fn describe_into_appends_to_what_is_there() {
    let mut out = String::from("tree: ");
    divide(atom(6), atom(3)).describe_into(&mut out);
    assert_eq!(out, "tree: Divide { lhs: 6, rhs: 3 }");
}

#[test]
fn describing_twice_gives_the_same_text() {
    let e = concat(negative(atom(1)), minus(atom(2), atom(3)));
    assert_eq!(e.describe(), e.describe());
    assert_eq!(
        e.describe(),
        "Concat { lhs: Negative { lhs: 1 }, rhs: Minus { lhs: 2, rhs: 3 } }"
    );
}

#[test]
fn variant_names_are_those_of_the_tree() {
    assert_eq!(atom(1).name(), "Atomic");
    assert_eq!(negative(atom(1)).name(), "Negative");
    assert_eq!(concat(atom(1), atom(2)).name(), "Concat");
    assert_eq!(plus(atom(1), atom(2)).name(), "Plus");
    assert_eq!(minus(atom(1), atom(2)).name(), "Minus");
    assert_eq!(times(atom(1), atom(2)).name(), "Times");
    assert_eq!(divide(atom(1), atom(2)).name(), "Divide");
}

#[test]
fn wrapper_describes_as_the_wrapped_value_renders() {
    let e = times(plus(atom(1), atom(2)), atom(3));
    assert_eq!(WrapDisplay::new(&e).describe(), "(1+2)×3");
    assert_eq!(WrapDisplay::new(&e).describe(), e.render());
    let n: i32 = -24;
    assert_eq!(WrapDisplay::new(&n).describe(), "-24");
}

#[test]
fn wrapper_appends_to_what_is_there() {
    let n: i32 = 5;
    let mut out = String::from("value: ");
    WrapDisplay::new(&n).describe_into(&mut out);
    assert_eq!(out, "value: 5");
}
