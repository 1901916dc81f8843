//! The capability traits that tie the typed building blocks to the formatter,
//! and the small leaf types that belong with them.

use vstd::prelude::*;

use crate::fmt::{opt_sql_view, FormatBackend, Formatter};
use crate::literal::Literal;
use crate::sql::Sql;

verus! {

/// Direction of an ORDER BY clause.
#[derive(Clone, Copy, PartialEq, Eq, Structural)]
pub enum Order {
    Ascending,
    Descending,
}

/// An anonymous bound-parameter placeholder for a query.
#[derive(Clone, Copy)]
pub struct Parameter {}

/// An expression that renders to a SQL fragment, such as a literal value or a
/// parameter placeholder.
pub trait Expression<FB: FormatBackend> {
    /// The rendered text of this expression under the given backend.
    spec fn spec_format(&self, backend: FB) -> Seq<char>;

    /// Renders the expression using the formatter.
    fn format(&self, fmt: &Formatter<FB>) -> (r: Sql)
        ensures
            r@ == self.spec_format(fmt.spec_backend()),
    ;
}

/// A parameter renders to the dialect's placeholder token.
impl<FB: FormatBackend> Expression<FB> for Parameter {
    open spec fn spec_format(&self, backend: FB) -> Seq<char> {
        backend.spec_parameter()
    }

    fn format(&self, fmt: &Formatter<FB>) -> (r: Sql) {
        fmt.parameter()
    }
}

/// The closed set of expression kinds a statement can carry as a value,
/// allowing literals and parameters to be mixed in one value list.
#[derive(Clone)]
pub enum Expr {
    /// A literal value.
    Literal(Literal),
    /// An anonymous parameter placeholder.
    Parameter(Parameter),
}

impl<FB: FormatBackend> Expression<FB> for Expr {
    open spec fn spec_format(&self, backend: FB) -> Seq<char> {
        match self {
            Expr::Literal(l) => l.spec_format(backend),
            Expr::Parameter(p) => p.spec_format(backend),
        }
    }

    fn format(&self, fmt: &Formatter<FB>) -> (r: Sql) {
        match self {
            Expr::Literal(l) => l.format(fmt),
            Expr::Parameter(p) => p.format(fmt),
        }
    }
}

/// An expression that a SELECT's results can be ordered by.
///
/// Rendering returns `None` when there is nothing to order by, in which case
/// the ORDER BY clause is omitted entirely.
pub trait OrderExpression {
    /// The rendered ordering expression, or `None` for "no ordering".
    spec fn spec_format(&self) -> Option<Seq<char>>;

    /// Renders the ordering expression using the formatter.
    fn format<FB: FormatBackend>(&self, fmt: &Formatter<FB>) -> (r: Option<Sql>)
        ensures
            opt_sql_view(&r) == self.spec_format(),
    ;
}

/// The unit type means "no ordering".
impl OrderExpression for () {
    open spec fn spec_format(&self) -> Option<Seq<char>> {
        None
    }

    fn format<FB: FormatBackend>(&self, fmt: &Formatter<FB>) -> (r: Option<Sql>) {
        None
    }
}

/// A composable boolean condition for WHERE clauses.
///
/// Rendering returns `None` when the predicate contributes no condition; the
/// combinators treat an absent side as neutral.
pub trait Predicate {
    /// The rendered condition, or `None` for "no condition".
    spec fn spec_format(&self) -> Option<Seq<char>>;

    /// Renders the predicate using the formatter.
    fn format<FB: FormatBackend>(&self, fmt: &Formatter<FB>) -> (r: Option<Sql>)
        ensures
            opt_sql_view(&r) == self.spec_format(),
    ;
}

/// A query retrieves data.
pub trait Query<FB: FormatBackend> {
    /// The full rendered text of the query under the given backend.
    spec fn spec_format(&self, backend: FB) -> Seq<char>;

    /// Renders the entire query using the formatter.
    fn format(&self, fmt: &Formatter<FB>) -> (r: Sql)
        ensures
            r@ == self.spec_format(fmt.spec_backend()),
    ;
}

/// A statement inserts, updates or deletes data.
pub trait Statement<FB: FormatBackend> {
    /// The full rendered text of the statement under the given backend.
    spec fn spec_format(&self, backend: FB) -> Seq<char>;

    /// Renders the entire statement using the formatter.
    fn format(&self, fmt: &Formatter<FB>) -> (r: Sql)
        ensures
            r@ == self.spec_format(fmt.spec_backend()),
    ;
}

/// The source of a SELECT: either a bare table name or a nested SELECT.
pub trait SelectBase<FB: FormatBackend> {
    /// The rendered text of the source under the given backend.
    spec fn spec_format(&self, backend: FB) -> Seq<char>;

    /// Renders the source using the formatter.
    fn format(&self, fmt: &Formatter<FB>) -> (r: Sql)
        ensures
            r@ == self.spec_format(fmt.spec_backend()),
    ;
}

} // verus!
