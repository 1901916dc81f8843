//! The INSERT statement node.

use vstd::prelude::*;

use crate::fmt::{FormatBackend, Formatter};
use crate::identifier::Identifier;
use crate::sql::Sql;
use crate::traits::{Expr, Expression, Statement};

verus! {

/// The INSERT statement: a table and an ordered list of field/value pairs.
pub struct Insert {
    pub table: Identifier,
    pub values: Vec<(Identifier, Expr)>,
}

impl Insert {
    /// Creates a new INSERT statement.
    pub fn new(table: Identifier, values: Vec<(Identifier, Expr)>) -> (r: Insert)
        ensures
            r.table == table,
            r.values == values,
    {
        Insert { table, values }
    }
}

impl<FB: FormatBackend> Statement<FB> for Insert {
    open spec fn spec_format(&self, backend: FB) -> Seq<char> {
        backend.spec_insert(
            self.table@,
            self.values@.map_values(|p: (Identifier, Expr)| (p.0@, p.1.spec_format(backend))),
        )
    }

    fn format(&self, fmt: &Formatter<FB>) -> (r: Sql) {
        fmt.insert().table(&self.table).field_values(&self.values).finish()
    }
}

} // verus!
