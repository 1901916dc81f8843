//! SQL-related data types shared by the whole crate.

use vstd::prelude::*;

verus! {

/// A wrapper encapsulating valid, fully generated SQL text, so that rendered
/// output cannot be mixed up with raw user strings at the type level.
#[derive(Debug)]
pub struct Sql {
    content: String,
}

impl View for Sql {
    type V = Seq<char>;

    closed spec fn view(&self) -> Seq<char> {
        self.content@
    }
}

impl Sql {
    /// Wraps rendered text; only the rendering pipeline itself creates these.
    pub(crate) fn new(content: String) -> (r: Sql)
        ensures
            r@ == content@,
    {
        Sql { content }
    }

    /// Borrows the rendered text.
    pub fn as_str(&self) -> (r: &str)
        ensures
            r@ == self@,
    {
        self.content.as_str()
    }

    /// Returns a copy of the rendered text.
    pub fn to_string(&self) -> (r: String)
        ensures
            r@ == self@,
    {
        self.content.clone()
    }
}

impl From<Sql> for String {
    fn from(other: Sql) -> (r: String)
        ensures
            r@ == other@,
    {
        other.content
    }
}

impl vstd::std_specs::convert::FromSpecImpl<Sql> for String {
    open spec fn obeys_from_spec() -> bool {
        true
    }

    closed spec fn from_spec(other: Sql) -> String {
        other.content
    }
}

/// SQL column types.
pub enum Types {
    /// Stores a string.
    String,
    /// Stores binary data.
    Binary,
}

} // verus!
