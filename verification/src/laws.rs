//! The laws of the rendering pipeline, stated over the reference dialect and
//! proved from the contracts of the building blocks.

use vstd::prelude::*;

use crate::delete::Delete;
use crate::fmt::{spec_join, spec_order_keyword, FormatBackend, SqliteBackend};
use crate::identifier::Identifier;
use crate::insert::Insert;
use crate::predicates::{And, Or};
use crate::select::Select;
use crate::traits::{Expr, Expression, Order, OrderExpression, Predicate, Query, SelectBase, Statement};

verus! {

/// A SELECT with the empty predicate and no ordering renders to exactly
/// `SELECT {fields} FROM ({base})`: no WHERE and no ORDER BY fragment is
/// present, however the source itself rendered.
pub proof fn lemma_select_plain<B: SelectBase<SqliteBackend>>(
    s: Select<B, ()>,
    backend: SqliteBackend,
)
    ensures
        Query::spec_format(&s, backend) == "SELECT "@ + spec_join(
            s.fields@.map_values(|i: Identifier| i@),
            ","@,
        ) + " FROM ("@ + s.base.spec_format(backend) + ")"@,
{
}

/// The empty predicate is neutral on either side of AND and OR: the
/// combination renders exactly as the other side alone. Because this holds for
/// every predicate, it holds recursively for arbitrarily deep trees.
pub proof fn lemma_empty_is_neutral<P: Predicate>(p: P)
    ensures
        (And { left: (), right: p }).spec_format() == p.spec_format(),
        (And { left: p, right: () }).spec_format() == p.spec_format(),
        (Or { left: (), right: p }).spec_format() == p.spec_format(),
        (Or { left: p, right: () }).spec_format() == p.spec_format(),
{
}

/// The combinators follow a three-way rule for any two predicates: with both
/// sides present the rendered sides are joined by the operator keyword, with
/// exactly one side present the result is that side alone, and with neither
/// side present the combination contributes no condition.
pub proof fn lemma_combinator_sides<L: Predicate, R: Predicate>(a: And<L, R>, o: Or<L, R>)
    ensures
        a.left.spec_format() is Some && a.right.spec_format() is Some ==> a.spec_format()
            == Some(a.left.spec_format().unwrap() + " AND "@ + a.right.spec_format().unwrap()),
        a.left.spec_format() is None ==> a.spec_format() == a.right.spec_format(),
        a.right.spec_format() is None ==> a.spec_format() == a.left.spec_format(),
        o.left.spec_format() is Some && o.right.spec_format() is Some ==> o.spec_format()
            == Some(o.left.spec_format().unwrap() + " OR "@ + o.right.spec_format().unwrap()),
        o.left.spec_format() is None ==> o.spec_format() == o.right.spec_format(),
        o.right.spec_format() is None ==> o.spec_format() == o.left.spec_format(),
{
}

/// Combining two empty predicates still renders to "no condition": no
/// dangling AND or OR token is ever produced.
pub proof fn lemma_empty_absorbs_empty()
    ensures
        (And { left: (), right: () }).spec_format() is None,
        (Or { left: (), right: () }).spec_format() is None,
{
}

/// An ordering appends exactly ` ORDER BY {expr} {ASC|DESC}` to the query, and
/// a query without an ordering is exactly the same text with nothing appended.
pub proof fn lemma_select_ordering<
    B: SelectBase<SqliteBackend>,
    P: Predicate,
    O: OrderExpression,
>(s: Select<B, P, O>, backend: SqliteBackend)
    requires
        s.ordering.0.spec_format() is Some,
    ensures
        Query::spec_format(&s, backend) == Query::spec_format(
            &(Select {
                base: s.base,
                fields: s.fields,
                predicate: s.predicate,
                ordering: ((), Order::Ascending),
            }),
            backend,
        ) + " ORDER BY "@ + s.ordering.0.spec_format().unwrap() + " "@ + spec_order_keyword(
            s.ordering.1,
        ),
{
}

/// A SELECT whose ordering expression renders to nothing is exactly the
/// query without an ordering: nothing is appended, not even an empty clause.
pub proof fn lemma_select_unordered<
    B: SelectBase<SqliteBackend>,
    P: Predicate,
    O: OrderExpression,
>(s: Select<B, P, O>, backend: SqliteBackend)
    requires
        s.ordering.0.spec_format() is None,
    ensures
        Query::spec_format(&s, backend) == Query::spec_format(
            &(Select {
                base: s.base,
                fields: s.fields,
                predicate: s.predicate,
                ordering: ((), Order::Ascending),
            }),
            backend,
        ),
{
}

/// Rendering is a pure function of the tree and the backend: any two
/// renderings of the same query or statement agree byte for byte.
pub proof fn lemma_format_pure<FB: FormatBackend, Q: Query<FB>, S: Statement<FB>>(
    q: &Q,
    s: &S,
    backend: FB,
    q1: Seq<char>,
    q2: Seq<char>,
    s1: Seq<char>,
    s2: Seq<char>,
)
    requires
        q1 == q.spec_format(backend),
        q2 == q.spec_format(backend),
        s1 == s.spec_format(backend),
        s2 == s.spec_format(backend),
    ensures
        q1 == q2,
        s1 == s2,
{
}

/// An INSERT preserves the order of its field/value pairs in both lists: the
/// column list is the comma-join of the pair names in input order, and the
/// value list is the comma-join of the rendered pair values in the same order.
pub proof fn lemma_insert_preserves_order(i: Insert, backend: SqliteBackend)
    ensures
        Statement::spec_format(&i, backend) == "INSERT INTO "@ + i.table@ + " ("@ + spec_join(
            i.values@.map_values(|p: (Identifier, Expr)| p.0@),
            ","@,
        ) + ") VALUES ("@ + spec_join(
            i.values@.map_values(|p: (Identifier, Expr)| p.1.spec_format(backend)),
            ","@,
        ) + ")"@,
{
    let pairs = i.values@.map_values(
        |p: (Identifier, Expr)| (p.0@, p.1.spec_format(backend)),
    );
    assert(pairs.map_values(|p: (Seq<char>, Seq<char>)| p.0) =~= i.values@.map_values(
        |p: (Identifier, Expr)| p.0@,
    ));
    assert(pairs.map_values(|p: (Seq<char>, Seq<char>)| p.1) =~= i.values@.map_values(
        |p: (Identifier, Expr)| p.1.spec_format(backend),
    ));
}

/// A DELETE renders to `DELETE FROM ({table})` exactly when its predicate
/// contributes no condition, and to `DELETE FROM ({table}) WHERE {predicate}`
/// when it does: a dangling WHERE token is never produced.
pub proof fn lemma_delete_where<P: Predicate>(d: Delete<P>, backend: SqliteBackend)
    ensures
        d.predicate.spec_format() is None ==> Statement::spec_format(&d, backend) == "DELETE FROM ("@
            + d.table@ + ")"@,
        d.predicate.spec_format() matches Some(p) ==> Statement::spec_format(&d, backend)
            == "DELETE FROM ("@ + d.table@ + ")"@ + " WHERE "@ + p,
{
}

} // verus!
