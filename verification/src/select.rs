//! The SELECT query node.

use vstd::prelude::*;

use crate::fmt::{FormatBackend, Formatter};
use crate::identifier::Identifier;
use crate::sql::Sql;
use crate::traits::{Order, OrderExpression, Predicate, Query, SelectBase};

verus! {

/// A simple SELECT query: a source, an ordered field list, a predicate and an
/// optional ordering.
pub struct Select<B, P, O = ()> {
    pub base: B,
    pub fields: Vec<Identifier>,
    pub predicate: P,
    pub ordering: (O, Order),
}

impl<B, P: Predicate> Select<B, P> {
    /// Creates a new SELECT over the given source, fields and predicate, with
    /// no ordering.
    pub fn new(base: B, fields: Vec<Identifier>, predicate: P) -> (r: Select<B, P>)
        ensures
            r.base == base,
            r.fields == fields,
            r.predicate == predicate,
            r.ordering == ((), Order::Ascending),
    {
        Select { base, fields, predicate, ordering: ((), Order::Ascending) }
    }

    /// Attaches an ordering expression and direction to the query.
    pub fn order<O2: OrderExpression>(self, ordering: O2, order: Order) -> (r: Select<B, P, O2>)
        ensures
            r.base == self.base,
            r.fields == self.fields,
            r.predicate == self.predicate,
            r.ordering == (ordering, order),
    {
        Select {
            base: self.base,
            fields: self.fields,
            predicate: self.predicate,
            ordering: (ordering, order),
        }
    }
}

impl<FB: FormatBackend, B: SelectBase<FB>, P: Predicate, O: OrderExpression> Query<FB> for Select<
    B,
    P,
    O,
> {
    open spec fn spec_format(&self, backend: FB) -> Seq<char> {
        backend.spec_select(
            self.base.spec_format(backend),
            crate::fmt::spec_join(self.fields@.map_values(|i: Identifier| i@), ","@),
            self.predicate.spec_format(),
            match self.ordering.0.spec_format() {
                Some(o) => Some((o, self.ordering.1)),
                None => None,
            },
        )
    }

    fn format(&self, fmt: &Formatter<FB>) -> (r: Sql) {
        fmt.select().base(&self.base).fields(&self.fields).predicate(&self.predicate).order_by(
            &self.ordering,
        ).finish()
    }
}

/// A SELECT can itself be the source of another SELECT, enabling
/// arbitrary-depth subquery nesting.
impl<FB: FormatBackend, B: SelectBase<FB>, P: Predicate, O: OrderExpression> SelectBase<
    FB,
> for Select<B, P, O> {
    open spec fn spec_format(&self, backend: FB) -> Seq<char> {
        Query::spec_format(self, backend)
    }

    fn format(&self, fmt: &Formatter<FB>) -> (r: Sql) {
        Query::format(self, fmt)
    }
}

} // verus!
