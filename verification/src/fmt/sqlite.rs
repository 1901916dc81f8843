//! The formatting backend for SQLite.

use vstd::prelude::*;

use super::{lemma_join_snoc, opt_ordering_view, opt_sql_view, pairs_view, spec_join,
    FormatBackend};
use crate::sql::Sql;
use crate::traits::Order;

verus! {

/// The formatting backend for SQLite.
pub struct SqliteBackend {}

impl SqliteBackend {
    /// Creates a new instance of the backend.
    pub fn new() -> (r: SqliteBackend)
        ensures
            r == (SqliteBackend {  }),
    {
        SqliteBackend {  }
    }
}

impl Default for SqliteBackend {
    fn default() -> (r: SqliteBackend)
        ensures
            r == (SqliteBackend {  }),
    {
        SqliteBackend::new()
    }
}

/// The dialect keyword for an ordering direction.
pub open spec fn spec_order_keyword(order: Order) -> Seq<char> {
    match order {
        Order::Ascending => "ASC"@,
        Order::Descending => "DESC"@,
    }
}

/// The assignments of an UPDATE: `field=value` pairs, comma-joined in order.
pub open spec fn spec_assignments(fields: Seq<(Seq<char>, Seq<char>)>) -> Seq<char> {
    spec_join(fields.map_values(|p: (Seq<char>, Seq<char>)| p.0 + "="@ + p.1), ","@)
}

impl FormatBackend for SqliteBackend {
    /// `SELECT {fields} FROM ({base})[ WHERE {predicate}][ ORDER BY {expr} {ASC|DESC}]`;
    /// the source is always parenthesized, whether a table or a subquery.
    open spec fn spec_select(
        self,
        base: Seq<char>,
        fields: Seq<char>,
        predicate: Option<Seq<char>>,
        ordering: Option<(Seq<char>, Order)>,
    ) -> Seq<char> {
        let head = "SELECT "@ + fields + " FROM ("@ + base + ")"@;
        let with_where = match predicate {
            Some(p) => head + " WHERE "@ + p,
            None => head,
        };
        match ordering {
            Some(o) => with_where + " ORDER BY "@ + o.0 + " "@ + spec_order_keyword(o.1),
            None => with_where,
        }
    }

    /// `INSERT INTO {table} ({fields}) VALUES ({values})`, both lists
    /// comma-joined in the order given.
    open spec fn spec_insert(
        self,
        table: Seq<char>,
        fields: Seq<(Seq<char>, Seq<char>)>,
    ) -> Seq<char> {
        "INSERT INTO "@ + table + " ("@ + spec_join(
            fields.map_values(|p: (Seq<char>, Seq<char>)| p.0),
            ","@,
        ) + ") VALUES ("@ + spec_join(
            fields.map_values(|p: (Seq<char>, Seq<char>)| p.1),
            ","@,
        ) + ")"@
    }

    /// `DELETE FROM ({table})[ WHERE {predicate}]`.
    open spec fn spec_delete(self, table: Seq<char>, predicate: Option<Seq<char>>) -> Seq<char> {
        let head = "DELETE FROM ("@ + table + ")"@;
        match predicate {
            Some(p) => head + " WHERE "@ + p,
            None => head,
        }
    }

    /// `UPDATE {table} SET {field=value,...}[ WHERE {predicate}]`.
    open spec fn spec_update(
        self,
        table: Seq<char>,
        fields: Seq<(Seq<char>, Seq<char>)>,
        predicate: Option<Seq<char>>,
    ) -> Seq<char> {
        let head = "UPDATE "@ + table + " SET "@ + spec_assignments(fields);
        match predicate {
            Some(p) => head + " WHERE "@ + p,
            None => head,
        }
    }

    /// Anonymous parameters render as the single token `?`.
    open spec fn spec_parameter(self) -> Seq<char> {
        "?"@
    }

    fn format_select(
        &self,
        base: Sql,
        fields: Sql,
        predicate: Option<Sql>,
        ordering: Option<(Sql, Order)>,
    ) -> (r: Sql) {
        let mut out = String::from_str("SELECT ");
        out.append(fields.as_str());
        out.append(" FROM (");
        out.append(base.as_str());
        out.append(")");
        match &predicate {
            Some(p) => {
                out.append(" WHERE ");
                out.append(p.as_str());
            },
            None => {},
        }
        match &ordering {
            Some(o) => {
                out.append(" ORDER BY ");
                out.append(o.0.as_str());
                out.append(" ");
                match o.1 {
                    Order::Ascending => out.append("ASC"),
                    Order::Descending => out.append("DESC"),
                }
            },
            None => {},
        }
        proof {
            assert(out@ =~= self.spec_select(
                base@,
                fields@,
                opt_sql_view(&predicate),
                opt_ordering_view(&ordering),
            ));
        }
        Sql::new(out)
    }

    fn format_insert(&self, table: Sql, fields: Vec<(Sql, Sql)>) -> (r: Sql) {
        let ghost field_views = pairs_view(fields@).map_values(
            |p: (Seq<char>, Seq<char>)| p.0,
        );
        let ghost value_views = pairs_view(fields@).map_values(
            |p: (Seq<char>, Seq<char>)| p.1,
        );
        let mut cols = String::new();
        let mut vals = String::new();
        let n = fields.len();
        let mut idx: usize = 0;
        while idx < n
            invariant
                n == fields.len(),
                idx <= n,
                field_views == pairs_view(fields@).map_values(
                    |p: (Seq<char>, Seq<char>)| p.0,
                ),
                value_views == pairs_view(fields@).map_values(
                    |p: (Seq<char>, Seq<char>)| p.1,
                ),
                cols@ == spec_join(field_views.take(idx as int), ","@),
                vals@ == spec_join(value_views.take(idx as int), ","@),
            decreases n - idx,
        {
            if idx > 0 {
                cols.append(",");
                vals.append(",");
            }
            cols.append(fields[idx].0.as_str());
            vals.append(fields[idx].1.as_str());
            proof {
                assert(field_views.take(idx as int).push(field_views[idx as int])
                    =~= field_views.take(idx as int + 1));
                assert(value_views.take(idx as int).push(value_views[idx as int])
                    =~= value_views.take(idx as int + 1));
                if idx > 0 {
                    lemma_join_snoc(field_views.take(idx as int), ","@, field_views[idx as int]);
                    lemma_join_snoc(value_views.take(idx as int), ","@, value_views[idx as int]);
                }
            }
            idx += 1;
        }
        proof {
            assert(field_views.take(n as int) =~= field_views);
            assert(value_views.take(n as int) =~= value_views);
        }
        let mut out = String::from_str("INSERT INTO ");
        out.append(table.as_str());
        out.append(" (");
        out.append(cols.as_str());
        out.append(") VALUES (");
        out.append(vals.as_str());
        out.append(")");
        proof {
            assert(out@ =~= self.spec_insert(table@, pairs_view(fields@)));
        }
        Sql::new(out)
    }

    fn format_delete(&self, table: Sql, predicate: Option<Sql>) -> (r: Sql) {
        let mut out = String::from_str("DELETE FROM (");
        out.append(table.as_str());
        out.append(")");
        match &predicate {
            Some(p) => {
                out.append(" WHERE ");
                out.append(p.as_str());
            },
            None => {},
        }
        proof {
            assert(out@ =~= self.spec_delete(table@, opt_sql_view(&predicate)));
        }
        Sql::new(out)
    }

    fn format_update(&self, table: Sql, fields: Vec<(Sql, Sql)>, predicate: Option<Sql>) -> (r:
        Sql) {
        let ghost assign_views = pairs_view(fields@).map_values(
            |p: (Seq<char>, Seq<char>)| p.0 + "="@ + p.1,
        );
        let mut assigns = String::new();
        let n = fields.len();
        let mut idx: usize = 0;
        while idx < n
            invariant
                n == fields.len(),
                idx <= n,
                assign_views == pairs_view(fields@).map_values(
                    |p: (Seq<char>, Seq<char>)| p.0 + "="@ + p.1,
                ),
                assigns@ == spec_join(assign_views.take(idx as int), ","@),
            decreases n - idx,
        {
            if idx > 0 {
                assigns.append(",");
            }
            assigns.append(fields[idx].0.as_str());
            assigns.append("=");
            assigns.append(fields[idx].1.as_str());
            proof {
                assert(assign_views.take(idx as int).push(assign_views[idx as int])
                    =~= assign_views.take(idx as int + 1));
                if idx > 0 {
                    lemma_join_snoc(assign_views.take(idx as int), ","@, assign_views[idx as int]);
                }
            }
            idx += 1;
        }
        proof {
            assert(assign_views.take(n as int) =~= assign_views);
        }
        let mut out = String::from_str("UPDATE ");
        out.append(table.as_str());
        out.append(" SET ");
        out.append(assigns.as_str());
        match &predicate {
            Some(p) => {
                out.append(" WHERE ");
                out.append(p.as_str());
            },
            None => {},
        }
        proof {
            assert(out@ =~= self.spec_update(table@, pairs_view(fields@), opt_sql_view(
                &predicate,
            )));
        }
        Sql::new(out)
    }

    fn format_parameter(&self) -> (r: Sql) {
        Sql::new(String::from_str("?"))
    }
}

} // verus!
