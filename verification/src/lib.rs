//! A library for building SQL queries from typed building blocks and
//! rendering them to dialect-correct text.
//!
//! A caller assembles identifiers, literals, predicates and statement nodes
//! into a tree, and a [`fmt::Formatter`] renders the tree through a pluggable
//! dialect backend. Every rendering function carries a contract that pins the
//! produced text down exactly, so that the shape of the generated SQL is
//! verified rather than tested.

mod traits;

pub use traits::{Expr, Expression, Order, OrderExpression, Parameter, Predicate, Query, SelectBase, Statement};

pub mod sql;

mod identifier;

pub use identifier::Identifier;

mod literal;

pub use literal::Literal;

mod predicates;

pub use predicates::{And, Or};

mod select;

pub use select::Select;

mod insert;

pub use insert::Insert;

mod update;

pub use update::Update;

mod delete;

pub use delete::Delete;

pub mod fmt;

pub mod laws;

pub mod verify;
