//! The predicate algebra: the equality leaf, the logical combinators, and the
//! empty predicate.

use vstd::prelude::*;

use crate::fmt::{FormatBackend, Formatter};
use crate::identifier::Identifier;
use crate::literal::{spec_literal, Literal};
use crate::sql::Sql;
use crate::traits::{Expression, Predicate};

verus! {

/// The unit type is the empty predicate: it always renders to "no condition".
impl Predicate for () {
    open spec fn spec_format(&self) -> Option<Seq<char>> {
        None
    }

    fn format<FB: FormatBackend>(&self, fmt: &Formatter<FB>) -> (r: Option<Sql>) {
        None
    }
}

/// An equality test between a column and a literal value, rendered as
/// `{identifier}={value}`.
impl Predicate for (Identifier, Literal) {
    open spec fn spec_format(&self) -> Option<Seq<char>> {
        Some(self.0@ + "="@ + spec_literal(self.1))
    }

    fn format<FB: FormatBackend>(&self, fmt: &Formatter<FB>) -> (r: Option<Sql>) {
        let exp = self.1.format(fmt);
        let mut s = self.0.as_str().to_owned();
        s.append("=");
        s.append(exp.as_str());
        Some(Sql::new(s))
    }
}

/// Combines two predicates using a logical AND.
///
/// An absent side is neutral: if only one side renders, the result is that
/// side alone; if neither renders, the combination renders to nothing.
pub struct And<L, R> {
    pub left: L,
    pub right: R,
}

impl<L: Predicate, R: Predicate> And<L, R> {
    /// Creates a new AND of the two given predicates.
    pub fn new(left: L, right: R) -> (r: And<L, R>)
        ensures
            r == (And { left, right }),
    {
        And { left, right }
    }
}

impl<L: Predicate, R: Predicate> Predicate for And<L, R> {
    open spec fn spec_format(&self) -> Option<Seq<char>> {
        match (self.left.spec_format(), self.right.spec_format()) {
            (Some(l), Some(r)) => Some(l + " AND "@ + r),
            (Some(l), None) => Some(l),
            (None, Some(r)) => Some(r),
            (None, None) => None,
        }
    }

    fn format<FB: FormatBackend>(&self, fmt: &Formatter<FB>) -> (r: Option<Sql>) {
        let left_pred = self.left.format(fmt);
        let right_pred = self.right.format(fmt);
        match (left_pred, right_pred) {
            (Some(l_p), Some(r_p)) => {
                let mut s = l_p.to_string();
                s.append(" AND ");
                s.append(r_p.as_str());
                Some(Sql::new(s))
            },
            (Some(l_p), None) => Some(l_p),
            (None, Some(r_p)) => Some(r_p),
            (None, None) => None,
        }
    }
}

/// Combines two predicates using a logical OR.
///
/// An absent side is neutral, exactly as for [`And`].
pub struct Or<L, R> {
    pub left: L,
    pub right: R,
}

impl<L: Predicate, R: Predicate> Or<L, R> {
    /// Creates a new OR of the two given predicates.
    pub fn new(left: L, right: R) -> (r: Or<L, R>)
        ensures
            r == (Or { left, right }),
    {
        Or { left, right }
    }
}

impl<L: Predicate, R: Predicate> Predicate for Or<L, R> {
    open spec fn spec_format(&self) -> Option<Seq<char>> {
        match (self.left.spec_format(), self.right.spec_format()) {
            (Some(l), Some(r)) => Some(l + " OR "@ + r),
            (Some(l), None) => Some(l),
            (None, Some(r)) => Some(r),
            (None, None) => None,
        }
    }

    fn format<FB: FormatBackend>(&self, fmt: &Formatter<FB>) -> (r: Option<Sql>) {
        let left_pred = self.left.format(fmt);
        let right_pred = self.right.format(fmt);
        match (left_pred, right_pred) {
            (Some(l_p), Some(r_p)) => {
                let mut s = l_p.to_string();
                s.append(" OR ");
                s.append(r_p.as_str());
                Some(Sql::new(s))
            },
            (Some(l_p), None) => Some(l_p),
            (None, Some(r_p)) => Some(r_p),
            (None, None) => None,
        }
    }
}

} // verus!
