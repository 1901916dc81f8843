//! The DELETE statement node.

use vstd::prelude::*;

use crate::fmt::{FormatBackend, Formatter};
use crate::identifier::Identifier;
use crate::sql::Sql;
use crate::traits::{Predicate, Statement};

verus! {

/// The DELETE statement: a table and a predicate selecting the rows to
/// delete.
pub struct Delete<P> {
    pub table: Identifier,
    pub predicate: P,
}

impl<P: Predicate> Delete<P> {
    /// Creates a new DELETE statement.
    pub fn new(table: Identifier, predicate: P) -> (r: Delete<P>)
        ensures
            r.table == table,
            r.predicate == predicate,
    {
        Delete { table, predicate }
    }
}

impl<FB: FormatBackend, P: Predicate> Statement<FB> for Delete<P> {
    open spec fn spec_format(&self, backend: FB) -> Seq<char> {
        backend.spec_delete(self.table@, self.predicate.spec_format())
    }

    fn format(&self, fmt: &Formatter<FB>) -> (r: Sql) {
        fmt.delete().table(&self.table).predicate(&self.predicate).finish()
    }
}

} // verus!
