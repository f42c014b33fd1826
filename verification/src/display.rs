//! The two textual forms of expressions and records.
//!
//! The rendered form is written for a reader who knows the usual precedence,
//! from tightest to loosest: juxtaposition, unary minus, `×` and `÷`, `+` and
//! `-`. Which operands it puts in parentheses is fixed per operator, by the
//! precedence class of the operand alone. The described form ignores
//! precedence and shows every node by name.
use crate::node::{Expression, Record};
use crate::text::{Describe, Render};
use vstd::prelude::*;
use vstd::string::StringExecFns;

verus! {

/// `inner` between an opening and a closing parenthesis.
pub open spec fn parenthesized(inner: Seq<char>) -> Seq<char> {
    "("@ + inner + ")"@
}

/// `inner` in parentheses if `wrap` holds, `inner` as it is otherwise.
pub open spec fn wrapped_if(wrap: bool, inner: Seq<char>) -> Seq<char> {
    if wrap {
        parenthesized(inner)
    } else {
        inner
    }
}

/// The structural text of a node named `variant` with the one operand `lhs`.
pub open spec fn unary_structure(variant: Seq<char>, lhs: Seq<char>) -> Seq<char> {
    variant + " { lhs: "@ + lhs + " }"@
}

/// The structural text of a node named `variant` with the operands `lhs` and
/// `rhs`, in that order.
pub open spec fn binary_structure(
    variant: Seq<char>,
    lhs: Seq<char>,
    rhs: Seq<char>,
) -> Seq<char> {
    variant + " { lhs: "@ + lhs + ", rhs: "@ + rhs + " }"@
}

impl<N: Render> Render for Expression<N> {
    /// The formula with as few parentheses as the rules below ask for.
    ///
    /// - A number is its own text.
    /// - A unary minus wraps its operand if that binds more loosely than a
    ///   product.
    /// - Concatenation and `+` never wrap an operand.
    /// - `-` wraps its right operand if that binds more loosely than a
    ///   product, and never its left one.
    /// - `×` wraps either operand if it binds more loosely than a product.
    /// - `÷` wraps its left operand if that binds more loosely than a product,
    ///   and its right operand unless that is a number.
    open spec fn text(&self) -> Seq<char>
        decreases self,
    {
        match self {
            Expression::Atomic { number } => number.text(),
            Expression::Negative { base } => {
                "-"@ + wrapped_if(base.binds_looser_than_product(), base.text())
            },
            Expression::Concat { lhs, rhs } => lhs.text() + rhs.text(),
            Expression::Plus { lhs, rhs } => lhs.text() + "+"@ + rhs.text(),
            Expression::Minus { lhs, rhs } => {
                lhs.text() + "-"@ + wrapped_if(rhs.binds_looser_than_product(), rhs.text())
            },
            Expression::Times { lhs, rhs } => {
                wrapped_if(lhs.binds_looser_than_product(), lhs.text()) + "×"@ + wrapped_if(
                    rhs.binds_looser_than_product(),
                    rhs.text(),
                )
            },
            Expression::Divide { lhs, rhs } => {
                wrapped_if(lhs.binds_looser_than_product(), lhs.text()) + "÷"@ + wrapped_if(
                    !(**rhs is Atomic),
                    rhs.text(),
                )
            },
        }
    }

    fn render_into(&self, out: &mut String)
        decreases self, 0nat,
    {
        match self {
            Expression::Atomic { number } => number.render_into(out),
            Expression::Negative { base: lhs } => {
                out.append("-");
                lhs.render_operand(lhs.lower_than_mul(), out);
            },
            Expression::Concat { lhs, rhs } => {
                lhs.render_into(out);
                rhs.render_into(out);
            },
            Expression::Plus { lhs, rhs } => {
                lhs.render_into(out);
                out.append("+");
                rhs.render_into(out);
            },
            Expression::Minus { lhs, rhs } => {
                lhs.render_into(out);
                out.append("-");
                rhs.render_operand(rhs.lower_than_mul(), out);
            },
            Expression::Times { lhs, rhs } => {
                lhs.render_operand(lhs.lower_than_mul(), out);
                out.append("×");
                rhs.render_operand(rhs.lower_than_mul(), out);
            },
            Expression::Divide { lhs, rhs } => {
                lhs.render_operand(lhs.lower_than_mul(), out);
                out.append("÷");
                match &**rhs {
                    Expression::Atomic { .. } => rhs.render_operand(false, out),
                    _ => rhs.render_operand(true, out),
                }
            },
        }
    }
}

impl<N: Render> Expression<N> {
    /// Appends this node's text to `out` as an operand: in parentheses if
    /// `wrap` holds, bare otherwise.
    fn render_operand(&self, wrap: bool, out: &mut String)
        ensures
            final(out)@ == old(out)@ + wrapped_if(wrap, self.text()),
        decreases self, 1nat,
    {
        if wrap {
            out.append("(");
            self.render_into(out);
            out.append(")");
        } else {
            self.render_into(out);
        }
    }
}

impl<N> Expression<N> {
    /// The name of this node's variant.
    pub open spec fn variant_name(&self) -> Seq<char> {
        match self {
            Expression::Atomic { .. } => "Atomic"@,
            Expression::Negative { .. } => "Negative"@,
            Expression::Concat { .. } => "Concat"@,
            Expression::Plus { .. } => "Plus"@,
            Expression::Minus { .. } => "Minus"@,
            Expression::Times { .. } => "Times"@,
            Expression::Divide { .. } => "Divide"@,
        }
    }

    /// Gives the name of this node's variant.
    pub fn name(&self) -> (s: &'static str)
        ensures
            s@ == self.variant_name(),
    {
        match self {
            Expression::Atomic { .. } => "Atomic",
            Expression::Negative { .. } => "Negative",
            Expression::Concat { .. } => "Concat",
            Expression::Plus { .. } => "Plus",
            Expression::Minus { .. } => "Minus",
            Expression::Times { .. } => "Times",
            Expression::Divide { .. } => "Divide",
        }
    }
}

impl<N: Render> Describe for Expression<N> {
    /// The shape of the tree: a number is its own text, and every other node
    /// is its variant's name followed by its operands in braces, `lhs` first.
    /// The operand of a negation goes by the label `lhs` too.
    open spec fn structure(&self) -> Seq<char>
        decreases self,
    {
        match self {
            Expression::Atomic { number } => number.text(),
            Expression::Negative { base } => {
                unary_structure(self.variant_name(), base.structure())
            },
            Expression::Concat { lhs, rhs }
            | Expression::Plus { lhs, rhs }
            | Expression::Minus { lhs, rhs }
            | Expression::Times { lhs, rhs }
            | Expression::Divide { lhs, rhs } => {
                binary_structure(self.variant_name(), lhs.structure(), rhs.structure())
            },
        }
    }

    fn describe_into(&self, out: &mut String)
        decreases self,
    {
        match self {
            Expression::Atomic { number } => number.render_into(out),
            Expression::Negative { base: lhs } => {
                out.append(self.name());
                out.append(" { lhs: ");
                lhs.describe_into(out);
                out.append(" }");
            },
            Expression::Concat { lhs, rhs }
            | Expression::Plus { lhs, rhs }
            | Expression::Minus { lhs, rhs }
            | Expression::Times { lhs, rhs }
            | Expression::Divide { lhs, rhs } => {
                out.append(self.name());
                out.append(" { lhs: ");
                lhs.describe_into(out);
                out.append(", rhs: ");
                rhs.describe_into(out);
                out.append(" }");
            },
        }
    }
}

/// Lends a value's human-readable text to a place that asks for a structural
/// form: the wrapper describes as the wrapped value renders.
pub struct WrapDisplay<'i, T> {
    inner: &'i T,
}

impl<'i, T> WrapDisplay<'i, T> {
    /// The wrapped value.
    pub closed spec fn wrapped(&self) -> T {
        *self.inner
    }

    /// Wraps `inner`.
    pub fn new(inner: &'i T) -> (w: Self)
        ensures
            w.wrapped() == *inner,
    {
        WrapDisplay { inner }
    }
}

impl<'i, T: Render> Describe for WrapDisplay<'i, T> {
    /// The human-readable text of the wrapped value.
    open spec fn structure(&self) -> Seq<char> {
        self.wrapped().text()
    }

    fn describe_into(&self, out: &mut String) {
        self.inner.render_into(out);
    }
}

impl<N: Render> Render for Record<N> {
    /// The claim as an equation: the number, ` == `, and the rendered
    /// expression.
    open spec fn text(&self) -> Seq<char> {
        self.n.text() + " == "@ + self.e.text()
    }

    fn render_into(&self, out: &mut String) {
        self.n.render_into(out);
        out.append(" == ");
        self.e.render_into(out);
    }
}

impl<N: Render> Describe for Record<N> {
    /// The record by name with its two fields, `expression` before `value`,
    /// each shown by its human-readable text: the expression is rendered, not
    /// described.
    open spec fn structure(&self) -> Seq<char> {
        "Record { expression: "@ + self.e.text() + ", value: "@ + self.n.text() + " }"@
    }

    fn describe_into(&self, out: &mut String) {
        out.append("Record { expression: ");
        WrapDisplay::new(&self.e).describe_into(out);
        out.append(", value: ");
        WrapDisplay::new(&self.n).describe_into(out);
        out.append(" }");
    }
}

} // verus!
