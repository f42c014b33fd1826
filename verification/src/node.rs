//! The expression tree, the record that pairs one with its value, and the
//! precedence classes that decide where parentheses go.
use vstd::prelude::*;

verus! {

/// An arithmetic formula over numbers of type `N`.
///
/// Every node owns its operands, so a value is a finite tree.
pub enum Expression<N> {
    /// A number.
    Atomic { number: N },
    /// The negation of `base`.
    Negative { base: Box<Expression<N>> },
    /// `lhs` and `rhs` written next to each other, as the digits of one literal.
    Concat { lhs: Box<Expression<N>>, rhs: Box<Expression<N>> },
    /// The sum of `lhs` and `rhs`.
    Plus { lhs: Box<Expression<N>>, rhs: Box<Expression<N>> },
    /// `lhs` less `rhs`.
    Minus { lhs: Box<Expression<N>>, rhs: Box<Expression<N>> },
    /// The product of `lhs` and `rhs`.
    Times { lhs: Box<Expression<N>>, rhs: Box<Expression<N>> },
    /// `lhs` divided by `rhs`.
    Divide { lhs: Box<Expression<N>>, rhs: Box<Expression<N>> },
}

/// A number `n` together with an expression `e` that is claimed to equal it.
///
/// The claim is the caller's: nothing here evaluates `e`.
pub struct Record<N> {
    /// The value that `e` is claimed to have.
    pub n: N,
    /// The expression.
    pub e: Expression<N>,
}

impl<N> Expression<N> {
    /// Whether this node is a leaf.
    pub open spec fn is_atomic_leaf(&self) -> bool {
        self is Atomic
    }

    /// Whether this node binds more loosely than a product, so that it needs
    /// parentheses as an operand of `×`, as the dividend of `÷`, under a unary
    /// minus and to the right of `-`.
    ///
    /// A product is not in this class: nested products are written flat.
    /// A quotient is, because division is neither associative nor commutative.
    pub open spec fn binds_looser_than_product(&self) -> bool {
        self is Plus || self is Minus || self is Divide
    }

    /// Tells whether this node is a leaf. Only the node's own variant counts.
    ///
    /// No rule of the rendered form asks for this class yet; it is here for
    /// precedence levels to come.
    pub fn lower_than_atom(&self) -> (b: bool)
        ensures
            b == self.is_atomic_leaf(),
    {
        match self {
            Expression::Atomic { .. } => true,
            _ => false,
        }
    }

    /// Tells whether this node binds more loosely than a product. Only the
    /// node's own variant counts.
    pub fn lower_than_mul(&self) -> (b: bool)
        ensures
            b == self.binds_looser_than_product(),
    {
        match self {
            Expression::Plus { .. } => true,
            Expression::Minus { .. } => true,
            Expression::Divide { .. } => true,
            _ => false,
        }
    }
}

} // verus!
