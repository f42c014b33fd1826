//! What holds of every expression, stated over the text that the formatting
//! functions are proved to produce.
use crate::display::{parenthesized, wrapped_if};
use crate::node::{Expression, Record};
use crate::text::{Describe, Render};
use vstd::prelude::*;

verus! {

/// An operand in parentheses is the operand between `(` and `)`.
pub proof fn lemma_parenthesized_is_bracketed(inner: Seq<char>)
    ensures
        parenthesized(inner) == seq!['('] + inner + seq![')'],
{
    reveal_strlit("(");
    reveal_strlit(")");
}

/// A number on its own renders and describes as its own text form: neither
/// form adds a parenthesis or anything else to it.
pub proof fn lemma_atomic_is_its_number<N: Render>(number: N)
    ensures
        (Expression::Atomic { number }).text() == number.text(),
        (Expression::Atomic { number }).structure() == number.text(),
{
}

/// A sum is its two operands with a `+` between them. The sum itself puts no
/// parenthesis anywhere: those in its text are those of its operands' texts.
pub proof fn lemma_plus_wraps_nothing<N: Render>(lhs: Expression<N>, rhs: Expression<N>)
    ensures
        (Expression::Plus { lhs: Box::new(lhs), rhs: Box::new(rhs) }).text()
            == lhs.text() + seq!['+'] + rhs.text(),
{
    reveal_strlit("+");
}

/// A difference wraps its right operand in parentheses exactly when that
/// operand is a sum, a difference or a quotient. A number, a negation, a
/// concatenation or a product stands bare. The left operand is never wrapped.
pub proof fn lemma_minus_wraps_looser_rhs<N: Render>(lhs: Expression<N>, rhs: Expression<N>)
    ensures
        rhs is Plus || rhs is Minus || rhs is Divide ==> (Expression::Minus {
            lhs: Box::new(lhs),
            rhs: Box::new(rhs),
        }).text() == lhs.text() + seq!['-', '('] + rhs.text() + seq![')'],
        rhs is Atomic || rhs is Negative || rhs is Concat || rhs is Times ==> (Expression::Minus {
            lhs: Box::new(lhs),
            rhs: Box::new(rhs),
        }).text() == lhs.text() + seq!['-'] + rhs.text(),
{
    reveal_strlit("-");
    lemma_parenthesized_is_bracketed(rhs.text());
}

/// A quotient wraps every divisor that is not a number, a product included,
/// so that the division keeps its grouping to the right. The dividend is
/// wrapped exactly when it binds more loosely than a product.
pub proof fn lemma_divide_wraps_compound_rhs<N: Render>(lhs: Expression<N>, rhs: Expression<N>)
    requires
        !(rhs is Atomic),
    ensures
        (Expression::Divide { lhs: Box::new(lhs), rhs: Box::new(rhs) }).text() == wrapped_if(
            lhs.binds_looser_than_product(),
            lhs.text(),
        ) + seq!['÷', '('] + rhs.text() + seq![')'],
{
    reveal_strlit("÷");
    lemma_parenthesized_is_bracketed(rhs.text());
}

/// A quotient leaves a divisor that is a number bare.
pub proof fn lemma_divide_leaves_atomic_rhs<N: Render>(lhs: Expression<N>, rhs: Expression<N>)
    requires
        rhs is Atomic,
    ensures
        (Expression::Divide { lhs: Box::new(lhs), rhs: Box::new(rhs) }).text() == wrapped_if(
            lhs.binds_looser_than_product(),
            lhs.text(),
        ) + seq!['÷'] + rhs.text(),
{
    reveal_strlit("÷");
}

/// Formatting depends on the value alone: two expressions that are equal have
/// the same rendered text and the same described text, and so have two equal
/// records. Formatting one value twice therefore gives the same text twice.
pub proof fn lemma_formatting_is_repeatable<N: Render>(
    first: Expression<N>,
    second: Expression<N>,
    n: N,
)
    requires
        first == second,
    ensures
        first.text() == second.text(),
        first.structure() == second.structure(),
        (Record { n, e: first }).text() == (Record { n, e: second }).text(),
        (Record { n, e: first }).structure() == (Record { n, e: second }).structure(),
{
}

} // verus!
