//! The value types on either side of the SQL layer and the coercions between them.
use vstd::prelude::*;

verus! {

/// A value as the storage engine holds it.
///
/// A real number is carried as its IEEE-754 double-precision bit pattern.
#[derive(Debug, PartialEq)]
pub enum SqlValue {
    Null,
    Integer(i64),
    Real(u64),
    Text(String),
    Blob(Vec<u8>),
}

/// The mathematical model of a [`SqlValue`].
pub enum SqlValueView {
    Null,
    Integer(i64),
    Real(u64),
    Text(Seq<char>),
    Blob(Seq<u8>),
}

impl View for SqlValue {
    type V = SqlValueView;

    open spec fn view(&self) -> SqlValueView {
        match self {
            SqlValue::Null => SqlValueView::Null,
            SqlValue::Integer(i) => SqlValueView::Integer(*i),
            SqlValue::Real(b) => SqlValueView::Real(*b),
            SqlValue::Text(s) => SqlValueView::Text(s@),
            SqlValue::Blob(b) => SqlValueView::Blob(b@),
        }
    }
}

/// The views of a sequence of values.
pub open spec fn values_view(v: Seq<SqlValue>) -> Seq<SqlValueView> {
    v.map_values(|x: SqlValue| x@)
}

/// A value that a filter condition compares against: text or a 64-bit integer.
#[derive(Debug, PartialEq)]
pub enum FilterValue {
    Text(String),
    Integer(i64),
}

/// The mathematical model of a [`FilterValue`].
pub enum FilterValueView {
    Text(Seq<char>),
    Integer(i64),
}

impl View for FilterValue {
    type V = FilterValueView;

    open spec fn view(&self) -> FilterValueView {
        match self {
            FilterValue::Text(s) => FilterValueView::Text(s@),
            FilterValue::Integer(i) => FilterValueView::Integer(*i),
        }
    }
}

impl Clone for FilterValue {
    fn clone(&self) -> (r: Self)
        ensures
            r == *self,
    {
        match self {
            FilterValue::Text(s) => FilterValue::Text(s.clone()),
            FilterValue::Integer(i) => FilterValue::Integer(*i),
        }
    }
}

/// A dynamically typed value handed in by a caller, as a payload field.
///
/// Numbers arrive already split: `Integer` for a number without fractional
/// part, `Real` (IEEE-754 bits) for any other. `Object` holds the serialized
/// form of a structured value. `Unsupported` stands for every other kind
/// (a function, a symbol, ...).
#[derive(Debug, PartialEq)]
pub enum DynamicValue {
    Undefined,
    Null,
    Boolean(bool),
    Integer(i64),
    Real(u64),
    Text(String),
    Object(String),
    Unsupported,
}

/// The mathematical model of a [`DynamicValue`].
pub enum DynamicValueView {
    Undefined,
    Null,
    Boolean(bool),
    Integer(i64),
    Real(u64),
    Text(Seq<char>),
    Object(Seq<char>),
    Unsupported,
}

impl View for DynamicValue {
    type V = DynamicValueView;

    open spec fn view(&self) -> DynamicValueView {
        match self {
            DynamicValue::Undefined => DynamicValueView::Undefined,
            DynamicValue::Null => DynamicValueView::Null,
            DynamicValue::Boolean(b) => DynamicValueView::Boolean(*b),
            DynamicValue::Integer(i) => DynamicValueView::Integer(*i),
            DynamicValue::Real(b) => DynamicValueView::Real(*b),
            DynamicValue::Text(s) => DynamicValueView::Text(s@),
            DynamicValue::Object(s) => DynamicValueView::Object(s@),
            DynamicValue::Unsupported => DynamicValueView::Unsupported,
        }
    }
}

/// Why a query could not be built.
#[derive(Debug, PartialEq, Eq, Structural)]
pub enum QueryError {
    /// A `where_` call of a shape other than `(column, operator, value)` or
    /// `(column, value)`.
    InvalidWhereArguments,
    /// An insert payload field whose value the engine cannot store.
    UnsupportedInsertValue,
    /// An update payload field whose value is not a boolean, a number or text.
    UnsupportedUpdateValue,
}

impl QueryError {
    /// A message for the caller.
    pub fn message(&self) -> (r: String)
        ensures
            r@ == self.message_text(),
    {
        match self {
            QueryError::InvalidWhereArguments => String::from_str("Invalid arguments for where"),
            QueryError::UnsupportedInsertValue => String::from_str("Unsupported value type in insert"),
            QueryError::UnsupportedUpdateValue => String::from_str("Unsupported value type in update"),
        }
    }

    /// The message that [`QueryError::message`] gives.
    pub open spec fn message_text(&self) -> Seq<char> {
        match self {
            QueryError::InvalidWhereArguments => "Invalid arguments for where"@,
            QueryError::UnsupportedInsertValue => "Unsupported value type in insert"@,
            QueryError::UnsupportedUpdateValue => "Unsupported value type in update"@,
        }
    }
}

/// Best-effort coercion of a dynamic value: null and undefined become `Null`,
/// a boolean becomes `0` or `1`, a structured value its serialized text, and an
/// unsupported value `Null`.
pub open spec fn coerced(v: DynamicValueView) -> SqlValueView {
    match v {
        DynamicValueView::Undefined => SqlValueView::Null,
        DynamicValueView::Null => SqlValueView::Null,
        DynamicValueView::Boolean(b) => SqlValueView::Integer(if b { 1 } else { 0 }),
        DynamicValueView::Integer(i) => SqlValueView::Integer(i),
        DynamicValueView::Real(bits) => SqlValueView::Real(bits),
        DynamicValueView::Text(s) => SqlValueView::Text(s),
        DynamicValueView::Object(s) => SqlValueView::Text(s),
        DynamicValueView::Unsupported => SqlValueView::Null,
    }
}

/// Whether a payload field of this value is left out of an insert.
pub open spec fn is_absent(v: DynamicValueView) -> bool {
    v is Undefined || v is Null
}

/// Whether an insert accepts this value.
pub open spec fn insertable(v: DynamicValueView) -> bool {
    !(v is Unsupported)
}

/// Whether an update accepts this value: a boolean, a number or text.
pub open spec fn updatable(v: DynamicValueView) -> bool {
    v is Boolean || v is Integer || v is Real || v is Text
}

/// The engine value bound for a filter value.
pub open spec fn filter_param(v: FilterValueView) -> SqlValueView {
    match v {
        FilterValueView::Text(s) => SqlValueView::Text(s),
        FilterValueView::Integer(i) => SqlValueView::Integer(i),
    }
}

/// Best-effort coercion of a dynamic value into an engine value.
pub fn coerce_in(v: &DynamicValue) -> (r: SqlValue)
    ensures
        r@ == coerced(v@),
{
    match v {
        DynamicValue::Undefined => SqlValue::Null,
        DynamicValue::Null => SqlValue::Null,
        DynamicValue::Boolean(b) => SqlValue::Integer(if *b { 1 } else { 0 }),
        DynamicValue::Integer(i) => SqlValue::Integer(*i),
        DynamicValue::Real(bits) => SqlValue::Real(*bits),
        DynamicValue::Text(s) => SqlValue::Text(s.clone()),
        DynamicValue::Object(s) => SqlValue::Text(s.clone()),
        DynamicValue::Unsupported => SqlValue::Null,
    }
}

/// The value an update binds for a payload field, or an error for a value that
/// is not a boolean, a number or text.
pub fn update_value(v: &DynamicValue) -> (r: Result<SqlValue, QueryError>)
    ensures
        updatable(v@) <==> r is Ok,
        r is Ok ==> r->Ok_0@ == coerced(v@),
        r is Err ==> r->Err_0 == QueryError::UnsupportedUpdateValue,
{
    match v {
        DynamicValue::Boolean(_) | DynamicValue::Integer(_) | DynamicValue::Real(_)
        | DynamicValue::Text(_) => Ok(coerce_in(v)),
        _ => Err(QueryError::UnsupportedUpdateValue),
    }
}

/// The engine value bound for a filter value: text stays text, an integer an
/// integer.
pub fn filter_value_param(v: &FilterValue) -> (r: SqlValue)
    ensures
        r@ == filter_param(v@),
{
    match v {
        FilterValue::Text(s) => SqlValue::Text(s.clone()),
        FilterValue::Integer(i) => SqlValue::Integer(*i),
    }
}

} // verus!
