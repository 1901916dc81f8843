//! The UPDATE statement node.

use vstd::prelude::*;

use crate::fmt::{FormatBackend, Formatter};
use crate::identifier::Identifier;
use crate::sql::Sql;
use crate::traits::{Expr, Expression, Predicate, Statement};

verus! {

/// The UPDATE statement: a table, an ordered list of field/value assignments
/// and a predicate selecting the rows to update.
pub struct Update<P> {
    pub table: Identifier,
    pub values: Vec<(Identifier, Expr)>,
    pub predicate: P,
}

impl<P: Predicate> Update<P> {
    /// Creates a new UPDATE statement based on the given information.
    pub fn new(table: Identifier, values: Vec<(Identifier, Expr)>, predicate: P) -> (r: Update<P>)
        ensures
            r.table == table,
            r.values == values,
            r.predicate == predicate,
    {
        Update { table, values, predicate }
    }
}

impl<FB: FormatBackend, P: Predicate> Statement<FB> for Update<P> {
    open spec fn spec_format(&self, backend: FB) -> Seq<char> {
        backend.spec_update(
            self.table@,
            self.values@.map_values(|p: (Identifier, Expr)| (p.0@, p.1.spec_format(backend))),
            self.predicate.spec_format(),
        )
    }

    fn format(&self, fmt: &Formatter<FB>) -> (r: Sql) {
        fmt.update().table(&self.table).field_values(&self.values).predicate(
            &self.predicate,
        ).finish()
    }
}

} // verus!
