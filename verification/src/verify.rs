//! Schema validation of SELECT queries against a catalog of known tables.
//!
//! The formatter itself never validates anything; callers opt in by handing a
//! query and a catalog to [`verify_select`], which answers with success or
//! with the first [`VerifyError`] found.

use vstd::prelude::*;

use crate::identifier::Identifier;
use crate::select::Select;
use crate::traits::{OrderExpression, Predicate};

verus! {

/// The views of a list of column names.
pub open spec fn col_views(cols: Seq<String>) -> Seq<Seq<char>> {
    cols.map_values(|c: String| c@)
}

/// The set of column names a list of columns offers.
pub open spec fn col_set(cols: Seq<String>) -> Set<Seq<char>> {
    col_views(cols).to_set()
}

/// Defines the root tables in the database: each table name maps to the set
/// of its column names. A later definition of the same table replaces the
/// earlier one.
pub struct RootTableDefinitions {
    inner: Vec<(String, Vec<String>)>,
}

/// The catalog that a list of definitions builds up, later entries replacing
/// earlier ones with the same name.
pub open spec fn spec_definitions(entries: Seq<(String, Vec<String>)>) -> Map<
    Seq<char>,
    Set<Seq<char>>,
>
    decreases entries.len(),
{
    if entries.len() == 0 {
        Map::empty()
    } else {
        spec_definitions(entries.drop_last()).insert(
            entries.last().0@,
            col_set(entries.last().1@),
        )
    }
}

/// The position of the definition that wins for a name: the last entry with
/// that name, or a negative value if there is none.
pub open spec fn spec_winning_entry(entries: Seq<(String, Vec<String>)>, name: Seq<char>) -> int
    decreases entries.len(),
{
    if entries.len() == 0 {
        -1
    } else if entries.last().0@ == name {
        entries.len() - 1
    } else {
        spec_winning_entry(entries.drop_last(), name)
    }
}

/// The catalog contains a name exactly when some entry defines it, and the
/// columns it maps the name to are those of the last such entry.
pub proof fn lemma_definitions_lookup(entries: Seq<(String, Vec<String>)>, name: Seq<char>)
    ensures
        spec_definitions(entries).dom().contains(name) <==> spec_winning_entry(entries, name) >= 0,
        spec_winning_entry(entries, name) >= 0 ==> spec_winning_entry(entries, name)
            < entries.len() && entries[spec_winning_entry(entries, name)].0@ == name
            && spec_definitions(entries)[name] == col_set(
            entries[spec_winning_entry(entries, name)].1@,
        ),
    decreases entries.len(),
{
    if entries.len() > 0 {
        lemma_definitions_lookup(entries.drop_last(), name);
    }
}

impl View for RootTableDefinitions {
    type V = Map<Seq<char>, Set<Seq<char>>>;

    closed spec fn view(&self) -> Map<Seq<char>, Set<Seq<char>>> {
        spec_definitions(self.inner@)
    }
}

impl RootTableDefinitions {
    /// Creates a new, empty definition of root tables.
    pub fn new() -> (r: RootTableDefinitions)
        ensures
            r@ == Map::<Seq<char>, Set<Seq<char>>>::empty(),
    {
        RootTableDefinitions { inner: Vec::new() }
    }

    /// Adds a new table definition, replacing any earlier definition of the
    /// same name.
    pub fn add_table(&mut self, name: &str, columns: Vec<String>)
        ensures
            final(self)@ == old(self)@.insert(name@, col_set(columns@)),
    {
        let ghost old_entries = self.inner@;
        let ghost cols = columns@;
        let entry = (name.to_owned(), columns);
        self.inner.push(entry);
        proof {
            assert(self.inner@.drop_last() =~= old_entries);
            assert(self.inner@.last().0@ == name@);
            assert(self.inner@.last().1@ == cols);
        }
    }

    /// Attempts to load the definition of a table with the given name,
    /// answering the columns of the winning definition.
    pub fn get_table(&self, name: &str) -> (r: Option<&Vec<String>>)
        ensures
            (r is Some) == self@.dom().contains(name@),
            r matches Some(cols) ==> col_set(cols@) == self@[name@],
    {
        let owned = name.to_owned();
        let ghost entries = self.inner@;
        let mut i = self.inner.len();
        proof {
            assert(entries.take(i as int) =~= entries);
        }
        while i > 0
            invariant
                i <= self.inner.len(),
                entries == self.inner@,
                owned@ == name@,
                spec_winning_entry(entries, name@) == spec_winning_entry(
                    entries.take(i as int),
                    name@,
                ),
            decreases i,
        {
            if self.inner[i - 1].0 == owned {
                proof {
                    assert(entries.take(i as int).last().0@ == name@);
                    lemma_definitions_lookup(entries, name@);
                }
                return Some(&self.inner[i - 1].1);
            }
            proof {
                assert(entries.take(i as int).drop_last() =~= entries.take(i as int - 1));
                assert(entries.take(i as int).last().0@ != name@);
            }
            i = i - 1;
        }
        proof {
            assert(entries.take(0) =~= Seq::<(String, Vec<String>)>::empty());
            lemma_definitions_lookup(entries, name@);
        }
        None
    }
}

impl Default for RootTableDefinitions {
    fn default() -> (r: RootTableDefinitions)
        ensures
            r@ == Map::<Seq<char>, Set<Seq<char>>>::empty(),
    {
        RootTableDefinitions::new()
    }
}

/// The error that can be returned when attempting to verify a query.
#[derive(Debug, PartialEq)]
pub enum VerifyError {
    /// A field was used but not defined on the table it was used on.
    MissingField {
        /// The field that was not found.
        field: String,
    },
    /// A table was used that was not defined.
    UnknownTable {
        /// The name of the table.
        table: String,
    },
}

/// The abstract value of a [`VerifyError`]: the same taxonomy over the views
/// of the names it carries.
pub enum VerifyErrorView {
    /// A field was used but not defined on the table it was used on.
    MissingField { field: Seq<char> },
    /// A table was used that was not defined.
    UnknownTable { table: Seq<char> },
}

impl View for VerifyError {
    type V = VerifyErrorView;

    open spec fn view(&self) -> VerifyErrorView {
        match self {
            VerifyError::MissingField { field } => VerifyErrorView::MissingField {
                field: field@,
            },
            VerifyError::UnknownTable { table } => VerifyErrorView::UnknownTable {
                table: table@,
            },
        }
    }
}

/// An extension trait adding what is needed to verify a query: the set of
/// fields a table-like value offers under a given catalog.
pub trait VerifyTable {
    /// The fields this table offers, or the error that makes it invalid.
    spec fn spec_fields(&self, roots: Map<Seq<char>, Set<Seq<char>>>) -> Result<
        Set<Seq<char>>,
        VerifyErrorView,
    >;

    /// Returns the fields available in this table.
    fn get_fields(&self, roots: &RootTableDefinitions) -> (r: Result<Vec<String>, VerifyError>)
        ensures
            r matches Ok(cols) ==> self.spec_fields(roots@) matches Ok(s) && col_set(cols@) == s,
            r matches Err(e) ==> self.spec_fields(roots@) matches Err(v) && e@ == v,
    ;
}

/// Copies a list of column names.
fn clone_columns(cols: &Vec<String>) -> (r: Vec<String>)
    ensures
        col_views(r@) == col_views(cols@),
{
    let ghost views = col_views(cols@);
    let mut out: Vec<String> = Vec::new();
    let n = cols.len();
    let mut i: usize = 0;
    while i < n
        invariant
            n == cols.len(),
            i <= n,
            views == col_views(cols@),
            col_views(out@) == views.take(i as int),
        decreases n - i,
    {
        proof {
            assert(views.take(i as int).len() == i as int);
            assert(col_views(out@).len() == out@.len());
        }
        out.push(cols[i].clone());
        proof {
            assert(col_views(out@) =~= views.take(i as int + 1));
        }
        i += 1;
    }
    proof {
        assert(views.take(n as int) =~= views);
    }
    out
}

/// Whether a list of columns contains the given name.
fn contains_column(cols: &Vec<String>, name: &String) -> (r: bool)
    ensures
        r == col_set(cols@).contains(name@),
{
    let n = cols.len();
    let mut i: usize = 0;
    while i < n
        invariant
            n == cols.len(),
            i <= n,
            forall|j: int| 0 <= j < i ==> col_views(cols@)[j] != name@,
        decreases n - i,
    {
        if cols[i] == *name {
            proof {
                assert(col_views(cols@)[i as int] == name@);
                assert(col_views(cols@).contains(name@));
            }
            return true;
        }
        i += 1;
    }
    proof {
        assert(!col_views(cols@).contains(name@));
    }
    false
}

/// A bare table name offers exactly the columns the catalog defines for it; a
/// name the catalog does not know is an unknown table.
impl VerifyTable for Identifier {
    open spec fn spec_fields(&self, roots: Map<Seq<char>, Set<Seq<char>>>) -> Result<
        Set<Seq<char>>,
        VerifyErrorView,
    > {
        if roots.dom().contains(self@) {
            Ok(roots[self@])
        } else {
            Err(VerifyErrorView::UnknownTable { table: self@ })
        }
    }

    fn get_fields(&self, roots: &RootTableDefinitions) -> (r: Result<Vec<String>, VerifyError>) {
        match roots.get_table(self.as_str()) {
            Some(cols) => Ok(clone_columns(cols)),
            None => Err(VerifyError::UnknownTable { table: self.as_str().to_owned() }),
        }
    }
}

/// The first of the given fields that the available set does not offer.
pub open spec fn spec_first_missing(fields: Seq<Seq<char>>, avail: Set<Seq<char>>) -> Option<
    Seq<char>,
>
    decreases fields.len(),
{
    if fields.len() == 0 {
        None
    } else if !avail.contains(fields[0]) {
        Some(fields[0])
    } else {
        spec_first_missing(fields.drop_first(), avail)
    }
}

/// The views of a list of field identifiers.
pub open spec fn field_views(fields: Seq<Identifier>) -> Seq<Seq<char>> {
    fields.map_values(|i: Identifier| i@)
}

/// A SELECT offers exactly the fields it selects, provided its base is valid
/// and offers every one of them; the first field its base does not offer makes
/// it invalid.
impl<B: VerifyTable, P: Predicate, O: OrderExpression> VerifyTable for Select<B, P, O> {
    open spec fn spec_fields(&self, roots: Map<Seq<char>, Set<Seq<char>>>) -> Result<
        Set<Seq<char>>,
        VerifyErrorView,
    > {
        match self.base.spec_fields(roots) {
            Err(e) => Err(e),
            Ok(avail) => match spec_first_missing(field_views(self.fields@), avail) {
                Some(f) => Err(VerifyErrorView::MissingField { field: f }),
                None => Ok(field_views(self.fields@).to_set()),
            },
        }
    }

    fn get_fields(&self, roots: &RootTableDefinitions) -> (r: Result<Vec<String>, VerifyError>) {
        let avail = match self.base.get_fields(roots) {
            Ok(cols) => cols,
            Err(e) => {
                return Err(e);
            },
        };
        let ghost fviews = field_views(self.fields@);
        let mut own: Vec<String> = Vec::new();
        let n = self.fields.len();
        let mut i: usize = 0;
        proof {
            assert(fviews.skip(0) =~= fviews);
        }
        while i < n
            invariant
                n == self.fields.len(),
                fviews == field_views(self.fields@),
                i <= n,
                self.base.spec_fields(roots@) matches Ok(a) && col_set(avail@) == a
                    && spec_first_missing(fviews, a) == spec_first_missing(
                    fviews.skip(i as int),
                    a,
                ),
                col_views(own@) == fviews.take(i as int),
            decreases n - i,
        {
            let name = self.fields[i].as_str().to_owned();
            if !contains_column(&avail, &name) {
                proof {
                    assert(fviews.skip(i as int)[0] == name@);
                }
                return Err(VerifyError::MissingField { field: name });
            }
            proof {
                assert(fviews.skip(i as int)[0] == name@);
                assert(fviews.skip(i as int).drop_first() =~= fviews.skip(i as int + 1));
                assert(col_views(own@).len() == own@.len());
                assert(fviews.take(i as int).len() == i as int);
            }
            own.push(name);
            proof {
                assert(col_views(own@) =~= fviews.take(i as int + 1));
            }
            i += 1;
        }
        proof {
            assert(fviews.skip(n as int) =~= Seq::<Seq<char>>::empty());
            assert(fviews.take(n as int) =~= fviews);
            assert(col_views(own@).to_set() =~= fviews.to_set());
        }
        Ok(own)
    }
}

/// Attempts to verify the given SELECT query against the catalog: success
/// exactly when every selected field, at every nesting level, is offered by
/// its source, and otherwise the first error found.
pub fn verify_select<T: VerifyTable, P: Predicate, O: OrderExpression>(
    select: Select<T, P, O>,
    base_definition: &RootTableDefinitions,
) -> (r: Result<(), VerifyError>)
    ensures
        (r is Ok) == (select.spec_fields(base_definition@) is Ok),
        r matches Err(e) ==> select.spec_fields(base_definition@) matches Err(v) && e@ == v,
{
    match select.get_fields(base_definition) {
        Ok(_) => Ok(()),
        Err(e) => Err(e),
    }
}

} // verus!
