//! The formatting pipeline: a uniform interface for rendering queries and
//! statements regardless of the flavor of the underlying target database.

use vstd::prelude::*;

use crate::identifier::Identifier;
use crate::literal::{decimal_i64, spec_decimal_i64};
use crate::sql::Sql;
use crate::traits::{Expr, Expression, Order, OrderExpression, Predicate, Query, SelectBase,
    Statement};

mod sqlite;

pub use sqlite::{spec_assignments, spec_order_keyword, SqliteBackend};

verus! {

/// The view of an optional rendered fragment.
pub open spec fn opt_sql_view(o: &Option<Sql>) -> Option<Seq<char>> {
    match o {
        Some(s) => Some(s@),
        None => None,
    }
}

/// The view of an optional rendered ordering fragment with its direction.
pub open spec fn opt_ordering_view(o: &Option<(Sql, Order)>) -> Option<(Seq<char>, Order)> {
    match o {
        Some(p) => Some((p.0@, p.1)),
        None => None,
    }
}

/// The view of a rendered field/value pair list.
pub open spec fn pairs_view(pairs: Seq<(Sql, Sql)>) -> Seq<(Seq<char>, Seq<char>)> {
    pairs.map_values(|p: (Sql, Sql)| (p.0@, p.1@))
}

/// Fragments joined by a separator, in order, with no leading or trailing
/// separator.
pub open spec fn spec_join(items: Seq<Seq<char>>, sep: Seq<char>) -> Seq<char>
    decreases items.len(),
{
    if items.len() == 0 {
        Seq::empty()
    } else if items.len() == 1 {
        items[0]
    } else {
        items[0] + sep + spec_join(items.drop_first(), sep)
    }
}

/// Appending one more fragment extends the joined text by a separator and the
/// fragment.
pub proof fn lemma_join_snoc(items: Seq<Seq<char>>, sep: Seq<char>, last: Seq<char>)
    requires
        items.len() >= 1,
    ensures
        spec_join(items.push(last), sep) == spec_join(items, sep) + sep + last,
    decreases items.len(),
{
    if items.len() == 1 {
        assert(items.push(last).drop_first() =~= seq![last]);
        assert(spec_join(seq![last], sep) == last);
        assert(spec_join(items.push(last), sep) == items[0] + sep + last);
    } else {
        assert(items.push(last).drop_first() =~= items.drop_first().push(last));
        lemma_join_snoc(items.drop_first(), sep, last);
        assert(spec_join(items.push(last), sep) == items[0] + sep + (spec_join(
            items.drop_first(),
            sep,
        ) + sep + last));
        assert(items[0] + sep + (spec_join(items.drop_first(), sep) + sep + last) =~= (items[0]
            + sep + spec_join(items.drop_first(), sep)) + sep + last);
    }
}

/// Describes the interface for a formatting backend.
///
/// Every operation receives already-rendered fragments and combines them using
/// the dialect's grammar; each is a pure function of its inputs, stated by the
/// matching `spec_` function.
pub trait FormatBackend: Sized {
    /// The text of a SELECT built from the given fragments.
    spec fn spec_select(
        self,
        base: Seq<char>,
        fields: Seq<char>,
        predicate: Option<Seq<char>>,
        ordering: Option<(Seq<char>, Order)>,
    ) -> Seq<char>;

    /// The text of an INSERT built from the given fragments.
    spec fn spec_insert(self, table: Seq<char>, fields: Seq<(Seq<char>, Seq<char>)>) -> Seq<char>;

    /// The text of a DELETE built from the given fragments.
    spec fn spec_delete(self, table: Seq<char>, predicate: Option<Seq<char>>) -> Seq<char>;

    /// The text of an UPDATE built from the given fragments.
    spec fn spec_update(
        self,
        table: Seq<char>,
        fields: Seq<(Seq<char>, Seq<char>)>,
        predicate: Option<Seq<char>>,
    ) -> Seq<char>;

    /// The dialect's token for an anonymous parameter.
    spec fn spec_parameter(self) -> Seq<char>;

    /// Formats a SELECT query with the given information.
    fn format_select(
        &self,
        base: Sql,
        fields: Sql,
        predicate: Option<Sql>,
        ordering: Option<(Sql, Order)>,
    ) -> (r: Sql)
        ensures
            r@ == self.spec_select(
                base@,
                fields@,
                opt_sql_view(&predicate),
                opt_ordering_view(&ordering),
            ),
    ;

    /// Formats an INSERT statement with the given information.
    fn format_insert(&self, table: Sql, fields: Vec<(Sql, Sql)>) -> (r: Sql)
        ensures
            r@ == self.spec_insert(table@, pairs_view(fields@)),
    ;

    /// Formats a DELETE statement with the given information.
    fn format_delete(&self, table: Sql, predicate: Option<Sql>) -> (r: Sql)
        ensures
            r@ == self.spec_delete(table@, opt_sql_view(&predicate)),
    ;

    /// Formats an UPDATE statement with the given information.
    fn format_update(&self, table: Sql, fields: Vec<(Sql, Sql)>, predicate: Option<Sql>) -> (r:
        Sql)
        ensures
            r@ == self.spec_update(table@, pairs_view(fields@), opt_sql_view(&predicate)),
    ;

    /// Formats an anonymous parameter.
    fn format_parameter(&self) -> (r: Sql)
        ensures
            r@ == self.spec_parameter(),
    ;
}

/// The formatter: owns one backend, selected at construction, and renders
/// whole queries and statements through it.
pub struct Formatter<FB> {
    backend: FB,
}

impl<FB: FormatBackend> Formatter<FB> {
    /// The backend this formatter renders with.
    pub closed spec fn spec_backend(self) -> FB {
        self.backend
    }

    /// Creates a new formatter using the given backend for final formatting.
    pub fn new(backend: FB) -> (r: Formatter<FB>)
        ensures
            r.spec_backend() == backend,
    {
        Formatter { backend }
    }

    /// Formats the given query.
    pub fn formatq<Q: Query<FB>>(&self, query: &Q) -> (r: Sql)
        ensures
            r@ == query.spec_format(self.spec_backend()),
    {
        query.format(self)
    }

    /// Formats the given statement.
    pub fn formats<S: Statement<FB>>(&self, stmnt: &S) -> (r: Sql)
        ensures
            r@ == stmnt.spec_format(self.spec_backend()),
    {
        stmnt.format(self)
    }

    /// Obtains a SELECT builder.
    pub fn select(&self) -> (r: FormatSelect<'_, FB>)
        ensures
            r.spec_backend() == self.spec_backend(),
            r.spec_base() is None,
            r.spec_fields() is None,
            r.spec_predicate() is None,
            r.spec_ordering() is None,
    {
        FormatSelect::new(self)
    }

    /// Obtains an INSERT builder.
    pub fn insert(&self) -> (r: FormatInsert<'_, FB>)
        ensures
            r.spec_backend() == self.spec_backend(),
            r.spec_table() is None,
            r.spec_field_values() is None,
    {
        FormatInsert::new(self)
    }

    /// Obtains a DELETE builder.
    pub fn delete(&self) -> (r: FormatDelete<'_, FB>)
        ensures
            r.spec_backend() == self.spec_backend(),
            r.spec_table() is None,
            r.spec_predicate() is None,
    {
        FormatDelete::new(self)
    }

    /// Obtains an UPDATE builder.
    pub fn update(&self) -> (r: FormatUpdate<'_, FB>)
        ensures
            r.spec_backend() == self.spec_backend(),
            r.spec_table() is None,
            r.spec_field_values() is None,
            r.spec_predicate() is None,
    {
        FormatUpdate::new(self)
    }

    /// Formats a string literal: double-quote delimited, embedded quotes left
    /// unescaped (a documented limitation of the reference dialect).
    pub fn string_literal(&self, value: &str) -> (r: Sql)
        ensures
            r@ == "\""@ + value@ + "\""@,
    {
        let mut s = String::from_str("\"");
        s.append(value);
        s.append("\"");
        Sql::new(s)
    }

    /// Formats a number literal as plain decimal text.
    pub fn number_literal(&self, numb: i64) -> (r: Sql)
        ensures
            r@ == spec_decimal_i64(numb as int),
    {
        Sql::new(decimal_i64(numb))
    }

    /// Obtains the SQL for an anonymous parameter.
    pub fn parameter(&self) -> (r: Sql)
        ensures
            r@ == self.spec_backend().spec_parameter(),
    {
        self.backend.format_parameter()
    }
}

/// The builder that accumulates the fragments of a SELECT query.
pub struct FormatSelect<'b, FB> {
    formatter: &'b Formatter<FB>,
    base: Option<Sql>,
    fields: Option<Sql>,
    predicate: Option<Sql>,
    ordering: Option<(Sql, Order)>,
}

impl<'b, FB: FormatBackend> FormatSelect<'b, FB> {
    pub closed spec fn spec_backend(self) -> FB {
        self.formatter.backend
    }

    pub closed spec fn spec_base(self) -> Option<Seq<char>> {
        opt_sql_view(&self.base)
    }

    pub closed spec fn spec_fields(self) -> Option<Seq<char>> {
        opt_sql_view(&self.fields)
    }

    pub closed spec fn spec_predicate(self) -> Option<Seq<char>> {
        opt_sql_view(&self.predicate)
    }

    pub closed spec fn spec_ordering(self) -> Option<(Seq<char>, Order)> {
        opt_ordering_view(&self.ordering)
    }

    fn new(formatter: &'b Formatter<FB>) -> (r: FormatSelect<'b, FB>)
        ensures
            r.spec_backend() == formatter.spec_backend(),
            r.spec_base() is None,
            r.spec_fields() is None,
            r.spec_predicate() is None,
            r.spec_ordering() is None,
    {
        FormatSelect { formatter, base: None, fields: None, predicate: None, ordering: None }
    }

    /// Renders and stores the source of the SELECT.
    pub fn base<B: SelectBase<FB>>(self, base: &B) -> (r: Self)
        ensures
            r.spec_backend() == self.spec_backend(),
            r.spec_base() == Some(base.spec_format(self.spec_backend())),
            r.spec_fields() == self.spec_fields(),
            r.spec_predicate() == self.spec_predicate(),
            r.spec_ordering() == self.spec_ordering(),
    {
        let b = base.format(self.formatter);
        FormatSelect { base: Some(b), ..self }
    }

    /// Renders and stores the fields that should be selected, comma-joined in
    /// order, with no deduplication and no trailing separator.
    pub fn fields(self, fields: &Vec<Identifier>) -> (r: Self)
        ensures
            r.spec_backend() == self.spec_backend(),
            r.spec_base() == self.spec_base(),
            r.spec_fields() == Some(
                spec_join(fields@.map_values(|i: Identifier| i@), ","@),
            ),
            r.spec_predicate() == self.spec_predicate(),
            r.spec_ordering() == self.spec_ordering(),
    {
        let ghost views = fields@.map_values(|i: Identifier| i@);
        let mut joined = String::new();
        let n = fields.len();
        let mut idx: usize = 0;
        while idx < n
            invariant
                n == fields.len(),
                idx <= n,
                views == fields@.map_values(|i: Identifier| i@),
                joined@ == spec_join(views.take(idx as int), ","@),
            decreases n - idx,
        {
            if idx > 0 {
                joined.append(",");
            }
            joined.append(fields[idx].as_str());
            proof {
                assert(views.take(idx as int).push(views[idx as int]) =~= views.take(
                    idx as int + 1,
                ));
                if idx > 0 {
                    lemma_join_snoc(views.take(idx as int), ","@, views[idx as int]);
                }
            }
            idx += 1;
        }
        proof {
            assert(views.take(n as int) =~= views);
        }
        FormatSelect { fields: Some(Sql::new(joined)), ..self }
    }

    /// Renders and stores the predicate for the query; an empty predicate
    /// contributes nothing.
    pub fn predicate<P: Predicate>(self, predicate: &P) -> (r: Self)
        ensures
            r.spec_backend() == self.spec_backend(),
            r.spec_base() == self.spec_base(),
            r.spec_fields() == self.spec_fields(),
            r.spec_predicate() == predicate.spec_format(),
            r.spec_ordering() == self.spec_ordering(),
    {
        let p = predicate.format(self.formatter);
        FormatSelect { predicate: p, ..self }
    }

    /// Renders and stores the ordering of the results; an empty ordering
    /// expression leaves the builder unchanged.
    pub fn order_by<O: OrderExpression>(self, ordering: &(O, Order)) -> (r: Self)
        ensures
            r.spec_backend() == self.spec_backend(),
            r.spec_base() == self.spec_base(),
            r.spec_fields() == self.spec_fields(),
            r.spec_predicate() == self.spec_predicate(),
            r.spec_ordering() == match ordering.0.spec_format() {
                Some(o) => Some((o, ordering.1)),
                None => self.spec_ordering(),
            },
    {
        match ordering.0.format(self.formatter) {
            Some(ord) => {
                FormatSelect { ordering: Some((ord, ordering.1)), ..self }
            },
            None => self,
        }
    }

    /// Hands the accumulated fragments to the backend.
    ///
    /// The base and the field list must have been supplied; leaving either out
    /// is a contract violation by the caller, not a runtime error.
    pub fn finish(self) -> (r: Sql)
        requires
            self.spec_base() is Some,
            self.spec_fields() is Some,
        ensures
            r@ == self.spec_backend().spec_select(
                self.spec_base().unwrap(),
                self.spec_fields().unwrap(),
                self.spec_predicate(),
                self.spec_ordering(),
            ),
    {
        let base = self.base.unwrap();
        let fields = self.fields.unwrap();
        self.formatter.backend.format_select(base, fields, self.predicate, self.ordering)
    }
}

/// The builder that accumulates the fragments of an INSERT statement.
pub struct FormatInsert<'b, FB> {
    formatter: &'b Formatter<FB>,
    table: Option<Sql>,
    field_values: Option<Vec<(Sql, Sql)>>,
}

impl<'b, FB: FormatBackend> FormatInsert<'b, FB> {
    pub closed spec fn spec_backend(self) -> FB {
        self.formatter.backend
    }

    pub closed spec fn spec_table(self) -> Option<Seq<char>> {
        opt_sql_view(&self.table)
    }

    pub closed spec fn spec_field_values(self) -> Option<Seq<(Seq<char>, Seq<char>)>> {
        match self.field_values {
            Some(fv) => Some(pairs_view(fv@)),
            None => None,
        }
    }

    fn new(formatter: &'b Formatter<FB>) -> (r: FormatInsert<'b, FB>)
        ensures
            r.spec_backend() == formatter.spec_backend(),
            r.spec_table() is None,
            r.spec_field_values() is None,
    {
        FormatInsert { formatter, table: None, field_values: None }
    }

    /// Stores the table into which the statement inserts.
    pub fn table(self, table: &Identifier) -> (r: Self)
        ensures
            r.spec_backend() == self.spec_backend(),
            r.spec_table() == Some(table@),
            r.spec_field_values() == self.spec_field_values(),
    {
        let t = Sql::new(table.as_str().to_owned());
        FormatInsert { table: Some(t), ..self }
    }

    /// Renders and stores the fields and the values that should be inserted,
    /// in order.
    pub fn field_values(self, field_values: &Vec<(Identifier, Expr)>) -> (r: Self)
        ensures
            r.spec_backend() == self.spec_backend(),
            r.spec_table() == self.spec_table(),
            r.spec_field_values() == Some(
                field_values@.map_values(
                    |p: (Identifier, Expr)|
                        (p.0@, p.1.spec_format(self.spec_backend())),
                ),
            ),
    {
        let ghost views = field_values@.map_values(
            |p: (Identifier, Expr)| (p.0@, p.1.spec_format(self.spec_backend())),
        );
        let mut rendered: Vec<(Sql, Sql)> = Vec::new();
        let n = field_values.len();
        let mut idx: usize = 0;
        while idx < n
            invariant
                n == field_values.len(),
                idx <= n,
                views == field_values@.map_values(
                    |p: (Identifier, Expr)| (p.0@, p.1.spec_format(self.spec_backend())),
                ),
                pairs_view(rendered@) == views.take(idx as int),
                self.formatter.backend == self.spec_backend(),
            decreases n - idx,
        {
            proof {
                assert(views.take(idx as int).len() == idx as int);
                assert(pairs_view(rendered@).len() == rendered@.len());
            }
            let id = Sql::new(field_values[idx].0.as_str().to_owned());
            let value = field_values[idx].1.format(self.formatter);
            rendered.push((id, value));
            proof {
                assert(pairs_view(rendered@) =~~= views.take(idx as int + 1));
            }
            idx += 1;
        }
        proof {
            assert(views.take(n as int) =~= views);
        }
        FormatInsert { field_values: Some(rendered), ..self }
    }

    /// Hands the accumulated fragments to the backend.
    ///
    /// The table and the field/value list must have been supplied; leaving
    /// either out is a contract violation by the caller.
    pub fn finish(self) -> (r: Sql)
        requires
            self.spec_table() is Some,
            self.spec_field_values() is Some,
        ensures
            r@ == self.spec_backend().spec_insert(
                self.spec_table().unwrap(),
                self.spec_field_values().unwrap(),
            ),
    {
        let table = self.table.unwrap();
        let fields = self.field_values.unwrap();
        self.formatter.backend.format_insert(table, fields)
    }
}

/// The builder that accumulates the fragments of a DELETE statement.
pub struct FormatDelete<'b, FB> {
    formatter: &'b Formatter<FB>,
    table: Option<Sql>,
    predicate: Option<Sql>,
}

impl<'b, FB: FormatBackend> FormatDelete<'b, FB> {
    pub closed spec fn spec_backend(self) -> FB {
        self.formatter.backend
    }

    pub closed spec fn spec_table(self) -> Option<Seq<char>> {
        opt_sql_view(&self.table)
    }

    pub closed spec fn spec_predicate(self) -> Option<Seq<char>> {
        opt_sql_view(&self.predicate)
    }

    fn new(formatter: &'b Formatter<FB>) -> (r: FormatDelete<'b, FB>)
        ensures
            r.spec_backend() == formatter.spec_backend(),
            r.spec_table() is None,
            r.spec_predicate() is None,
    {
        FormatDelete { formatter, table: None, predicate: None }
    }

    /// Stores the table from which entries should be deleted.
    pub fn table(self, table: &Identifier) -> (r: Self)
        ensures
            r.spec_backend() == self.spec_backend(),
            r.spec_table() == Some(table@),
            r.spec_predicate() == self.spec_predicate(),
    {
        let t = Sql::new(table.as_str().to_owned());
        FormatDelete { table: Some(t), ..self }
    }

    /// Renders and stores the predicate that selects the rows to delete; an
    /// empty predicate contributes nothing.
    pub fn predicate<P: Predicate>(self, pred: &P) -> (r: Self)
        ensures
            r.spec_backend() == self.spec_backend(),
            r.spec_table() == self.spec_table(),
            r.spec_predicate() == pred.spec_format(),
    {
        let p = pred.format(self.formatter);
        FormatDelete { predicate: p, ..self }
    }

    /// Hands the accumulated fragments to the backend.
    ///
    /// The table must have been supplied; leaving it out is a contract
    /// violation by the caller.
    pub fn finish(self) -> (r: Sql)
        requires
            self.spec_table() is Some,
        ensures
            r@ == self.spec_backend().spec_delete(
                self.spec_table().unwrap(),
                self.spec_predicate(),
            ),
    {
        let table = self.table.unwrap();
        self.formatter.backend.format_delete(table, self.predicate)
    }
}

/// The builder that accumulates the fragments of an UPDATE statement.
pub struct FormatUpdate<'b, FB> {
    formatter: &'b Formatter<FB>,
    table: Option<Sql>,
    field_values: Option<Vec<(Sql, Sql)>>,
    predicate: Option<Sql>,
}

impl<'b, FB: FormatBackend> FormatUpdate<'b, FB> {
    pub closed spec fn spec_backend(self) -> FB {
        self.formatter.backend
    }

    pub closed spec fn spec_table(self) -> Option<Seq<char>> {
        opt_sql_view(&self.table)
    }

    pub closed spec fn spec_field_values(self) -> Option<Seq<(Seq<char>, Seq<char>)>> {
        match self.field_values {
            Some(fv) => Some(pairs_view(fv@)),
            None => None,
        }
    }

    pub closed spec fn spec_predicate(self) -> Option<Seq<char>> {
        opt_sql_view(&self.predicate)
    }

    fn new(formatter: &'b Formatter<FB>) -> (r: FormatUpdate<'b, FB>)
        ensures
            r.spec_backend() == formatter.spec_backend(),
            r.spec_table() is None,
            r.spec_field_values() is None,
            r.spec_predicate() is None,
    {
        FormatUpdate { formatter, table: None, field_values: None, predicate: None }
    }

    /// Stores the table on which the statement should be executed.
    pub fn table(self, table: &Identifier) -> (r: Self)
        ensures
            r.spec_backend() == self.spec_backend(),
            r.spec_table() == Some(table@),
            r.spec_field_values() == self.spec_field_values(),
            r.spec_predicate() == self.spec_predicate(),
    {
        let t = Sql::new(table.as_str().to_owned());
        FormatUpdate { table: Some(t), ..self }
    }

    /// Renders and stores the fields and the values with which the update
    /// should be executed, in order.
    pub fn field_values(self, field_values: &Vec<(Identifier, Expr)>) -> (r: Self)
        ensures
            r.spec_backend() == self.spec_backend(),
            r.spec_table() == self.spec_table(),
            r.spec_field_values() == Some(
                field_values@.map_values(
                    |p: (Identifier, Expr)|
                        (p.0@, p.1.spec_format(self.spec_backend())),
                ),
            ),
            r.spec_predicate() == self.spec_predicate(),
    {
        let ghost views = field_values@.map_values(
            |p: (Identifier, Expr)| (p.0@, p.1.spec_format(self.spec_backend())),
        );
        let mut rendered: Vec<(Sql, Sql)> = Vec::new();
        let n = field_values.len();
        let mut idx: usize = 0;
        while idx < n
            invariant
                n == field_values.len(),
                idx <= n,
                views == field_values@.map_values(
                    |p: (Identifier, Expr)| (p.0@, p.1.spec_format(self.spec_backend())),
                ),
                pairs_view(rendered@) == views.take(idx as int),
                self.formatter.backend == self.spec_backend(),
            decreases n - idx,
        {
            proof {
                assert(views.take(idx as int).len() == idx as int);
                assert(pairs_view(rendered@).len() == rendered@.len());
            }
            let id = Sql::new(field_values[idx].0.as_str().to_owned());
            let value = field_values[idx].1.format(self.formatter);
            rendered.push((id, value));
            proof {
                assert(pairs_view(rendered@) =~~= views.take(idx as int + 1));
            }
            idx += 1;
        }
        proof {
            assert(views.take(n as int) =~= views);
        }
        FormatUpdate { field_values: Some(rendered), ..self }
    }

    /// Renders and stores the predicate that selects the rows to update; an
    /// empty predicate contributes nothing.
    pub fn predicate<P: Predicate>(self, predicate: &P) -> (r: Self)
        ensures
            r.spec_backend() == self.spec_backend(),
            r.spec_table() == self.spec_table(),
            r.spec_field_values() == self.spec_field_values(),
            r.spec_predicate() == predicate.spec_format(),
    {
        let p = predicate.format(self.formatter);
        FormatUpdate { predicate: p, ..self }
    }

    /// Hands the accumulated fragments to the backend.
    ///
    /// The table and the field/value list must have been supplied; leaving
    /// either out is a contract violation by the caller.
    pub fn finish(self) -> (r: Sql)
        requires
            self.spec_table() is Some,
            self.spec_field_values() is Some,
        ensures
            r@ == self.spec_backend().spec_update(
                self.spec_table().unwrap(),
                self.spec_field_values().unwrap(),
                self.spec_predicate(),
            ),
    {
        let table = self.table.unwrap();
        let field_values = self.field_values.unwrap();
        self.formatter.backend.format_update(table, field_values, self.predicate)
    }
}

} // verus!
