//! A fluent query builder over an embedded SQL engine.
//!
//! A [`Table`] names a relation; `where_` calls narrow it into a
//! [`FilteredTable`], an immutable chain of conditions with an optional
//! ordering. Every terminal operation compiles the chain into a [`Statement`]:
//! SQL text with `?` placeholders and the values bound to them, in order.
//! Identifiers are written into the text as given; every value is bound.
//! Running a statement, under whatever lock and transaction the caller keeps,
//! is the caller's business.
pub mod text;
pub mod value;
pub mod condition;
pub mod statement;
pub mod filtered_table;
pub mod table;
pub mod laws;

pub use condition::{Condition, OperatorKind};
pub use filtered_table::FilteredTable;
pub use statement::Statement;
pub use table::Table;
pub use value::{DynamicValue, FilterValue, QueryError, SqlValue};
