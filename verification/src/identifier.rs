//! Identifiers for tables and columns.

use vstd::prelude::*;

use crate::fmt::{FormatBackend, Formatter};
use crate::sql::Sql;
use crate::traits::{OrderExpression, SelectBase};

verus! {

/// An identifier, like a table or column name.
///
/// The name is passed through verbatim: no quoting or escaping is performed.
#[derive(Debug, Clone)]
pub struct Identifier {
    name: String,
}

impl View for Identifier {
    type V = Seq<char>;

    closed spec fn view(&self) -> Seq<char> {
        self.name@
    }
}

impl Identifier {
    /// Creates a new identifier with the given name.
    pub fn new(name: &str) -> (r: Identifier)
        ensures
            r@ == name@,
    {
        Identifier { name: name.to_owned() }
    }

    /// Borrows the identifier's name.
    pub fn as_str(&self) -> (r: &str)
        ensures
            r@ == self@,
    {
        self.name.as_str()
    }
}

impl From<String> for Identifier {
    fn from(name: String) -> (r: Identifier)
        ensures
            r@ == name@,
    {
        Identifier { name }
    }
}

impl vstd::std_specs::convert::FromSpecImpl<String> for Identifier {
    open spec fn obeys_from_spec() -> bool {
        true
    }

    closed spec fn from_spec(name: String) -> Identifier {
        Identifier { name }
    }
}

impl From<&str> for Identifier {
    fn from(name: &str) -> (r: Identifier)
        ensures
            r@ == name@,
    {
        Identifier { name: name.to_owned() }
    }
}

impl vstd::std_specs::convert::FromSpecImpl<&str> for Identifier {
    open spec fn obeys_from_spec() -> bool {
        false
    }

    closed spec fn from_spec(name: &str) -> Identifier {
        arbitrary()
    }
}

impl From<Identifier> for String {
    fn from(raw: Identifier) -> (r: String)
        ensures
            r@ == raw@,
    {
        raw.name
    }
}

impl vstd::std_specs::convert::FromSpecImpl<Identifier> for String {
    open spec fn obeys_from_spec() -> bool {
        true
    }

    closed spec fn from_spec(raw: Identifier) -> String {
        raw.name
    }
}

/// A bare table name is a valid source for a SELECT; it renders verbatim.
impl<FB: FormatBackend> SelectBase<FB> for Identifier {
    open spec fn spec_format(&self, backend: FB) -> Seq<char> {
        self@
    }

    fn format(&self, fmt: &Formatter<FB>) -> (r: Sql) {
        Sql::new(self.name.clone())
    }
}

/// A column name can order a SELECT's results; it renders verbatim.
impl OrderExpression for Identifier {
    open spec fn spec_format(&self) -> Option<Seq<char>> {
        Some(self@)
    }

    fn format<FB: FormatBackend>(&self, fmt: &Formatter<FB>) -> (r: Option<Sql>) {
        Some(Sql::new(self.name.clone()))
    }
}

} // verus!
