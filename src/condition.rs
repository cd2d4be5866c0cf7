//! A single predicate `(column, operator, value)` and how it renders into SQL.
use vstd::prelude::*;
use crate::text::{
    placeholders, split_commas, trimmed, decimal_text, upper_of, texts_view, uppercase,
    decimal, split_on_commas, placeholder_list, trim,
};
use crate::value::{SqlValue, SqlValueView, FilterValue, FilterValueView, values_view, filter_param, filter_value_param};

verus! {

/// How an operator renders.
#[derive(Debug, Clone, Copy, PartialEq, Eq, Structural)]
pub enum OperatorKind {
    /// `IS NULL` or `IS NOT NULL`: no parameter.
    NullTest,
    /// `IN`: one text parameter for each comma-separated item of the value.
    Membership,
    /// Anything else: `column OP ?` with the value as its parameter.
    Comparison,
}

/// The kind of an operator, given its upper-cased text.
pub open spec fn kind_of_upper(upper: Seq<char>) -> OperatorKind {
    if upper == "IS NULL"@ || upper == "IS NOT NULL"@ {
        OperatorKind::NullTest
    } else if upper == "IN"@ {
        OperatorKind::Membership
    } else {
        OperatorKind::Comparison
    }
}

/// The kind of an operator; operators compare without regard to case.
pub open spec fn kind_of(op: Seq<char>) -> OperatorKind {
    kind_of_upper(upper_of(op))
}

/// The kind of an operator, given its upper-cased text.
pub fn classify_upper(upper: &str) -> (r: OperatorKind)
    ensures
        r == kind_of_upper(upper@),
{
    let u = String::from_str(upper);
    if u == String::from_str("IS NULL") || u == String::from_str("IS NOT NULL") {
        OperatorKind::NullTest
    } else if u == String::from_str("IN") {
        OperatorKind::Membership
    } else {
        OperatorKind::Comparison
    }
}

/// The kind of an operator, compared without regard to case.
pub fn operator_kind(op: &str) -> (r: OperatorKind)
    ensures
        r == kind_of(op@),
{
    let upper = uppercase(op);
    classify_upper(upper.as_str())
}

/// One predicate of a chain.
pub struct Condition {
    pub column: String,
    pub operator: String,
    pub value: FilterValue,
}

/// The mathematical model of a [`Condition`].
pub struct ConditionView {
    pub column: Seq<char>,
    pub operator: Seq<char>,
    pub value: FilterValueView,
}

impl View for Condition {
    type V = ConditionView;

    open spec fn view(&self) -> ConditionView {
        ConditionView { column: self.column@, operator: self.operator@, value: self.value@ }
    }
}

impl Clone for Condition {
    fn clone(&self) -> (r: Self)
        ensures
            r == *self,
    {
        Condition {
            column: self.column.clone(),
            operator: self.operator.clone(),
            value: self.value.clone(),
        }
    }
}

/// The text an `IN` condition splits: the value itself, or an integer in decimal.
pub open spec fn membership_text(v: FilterValueView) -> Seq<char> {
    match v {
        FilterValueView::Text(s) => s,
        FilterValueView::Integer(i) => decimal_text(i as int),
    }
}

/// The items of an `IN` condition: its text split on commas, each trimmed.
pub open spec fn membership_items(v: FilterValueView) -> Seq<Seq<char>> {
    split_commas(membership_text(v)).map_values(|p: Seq<char>| trimmed(p))
}

/// The SQL fragment of a condition, rendered as an operator of the given kind.
pub open spec fn rendered_as(c: ConditionView, kind: OperatorKind) -> Seq<char> {
    match kind {
        OperatorKind::NullTest => c.column + " "@ + c.operator,
        OperatorKind::Membership => c.column + " IN ("@ + placeholders(
            split_commas(membership_text(c.value)).len(),
        ) + ")"@,
        OperatorKind::Comparison => c.column + " "@ + c.operator + " ?"@,
    }
}

/// The parameters a condition binds, in order, rendered as an operator of the
/// given kind.
pub open spec fn bound_as(c: ConditionView, kind: OperatorKind) -> Seq<SqlValueView> {
    match kind {
        OperatorKind::NullTest => Seq::empty(),
        OperatorKind::Membership => membership_items(c.value).map_values(
            |t: Seq<char>| SqlValueView::Text(t),
        ),
        OperatorKind::Comparison => seq![filter_param(c.value)],
    }
}

/// The SQL fragment of a condition.
pub open spec fn rendered(c: ConditionView) -> Seq<char> {
    rendered_as(c, kind_of(c.operator))
}

/// The parameters a condition binds, in order.
pub open spec fn bound(c: ConditionView) -> Seq<SqlValueView> {
    bound_as(c, kind_of(c.operator))
}

impl Condition {
    /// A condition from its parts.
    pub fn new(column: String, operator: String, value: FilterValue) -> (r: Condition)
        ensures
            r@ == (ConditionView { column: column@, operator: operator@, value: value@ }),
    {
        Condition { column, operator, value }
    }

    /// Appends this condition's SQL fragment to `sql` and its parameters to
    /// `params`.
    pub fn render(&self, sql: &mut String, params: &mut Vec<SqlValue>)
        ensures
            final(sql)@ == old(sql)@ + rendered(self@),
            values_view(final(params)@) == values_view(old(params)@) + bound(self@),
    {
        let kind = operator_kind(self.operator.as_str());
        self.render_kind(kind, sql, params);
    }

    /// Appends this condition's SQL fragment to `sql` and its parameters to
    /// `params`, rendering its operator as one of kind `kind`.
    pub fn render_kind(&self, kind: OperatorKind, sql: &mut String, params: &mut Vec<SqlValue>)
        ensures
            final(sql)@ == old(sql)@ + rendered_as(self@, kind),
            values_view(final(params)@) == values_view(old(params)@) + bound_as(self@, kind),
    {
        let ghost params0 = values_view(params@);
        match kind {
            OperatorKind::NullTest => {
                sql.append(self.column.as_str());
                sql.append(" ");
                sql.append(self.operator.as_str());
                assert(values_view(params@) =~= params0 + bound_as(self@, kind));
            },
            OperatorKind::Membership => {
                let text = match &self.value {
                    FilterValue::Text(s) => s.clone(),
                    FilterValue::Integer(i) => decimal(*i),
                };
                let pieces = split_on_commas(text.as_str());
                let marks = placeholder_list(pieces.len());
                sql.append(self.column.as_str());
                sql.append(" IN (");
                sql.append(marks.as_str());
                sql.append(")");
                let ghost items = membership_items(self.value@);
                let mut k: usize = 0;
                assert(values_view(params@) =~= params0 + items.take(0).map_values(
                    |t: Seq<char>| SqlValueView::Text(t),
                ));
                while k < pieces.len()
                    invariant
                        k <= pieces@.len(),
                        texts_view(pieces@) == split_commas(membership_text(self.value@)),
                        items == membership_items(self.value@),
                        items.len() == pieces@.len(),
                        values_view(params@) == params0 + items.take(k as int).map_values(
                            |t: Seq<char>| SqlValueView::Text(t),
                        ),
                    decreases pieces@.len() - k,
                {
                    let ghost before = values_view(params@);
                    let item = trim(pieces[k].as_str());
                    assert(texts_view(pieces@)[k as int] == pieces@[k as int]@);
                    assert(item@ == items[k as int]);
                    params.push(SqlValue::Text(item));
                    assert(values_view(params@) =~= before.push(SqlValueView::Text(item@)));
                    assert(items.take(k + 1).map_values(|t: Seq<char>| SqlValueView::Text(t))
                        =~= items.take(k as int).map_values(|t: Seq<char>| SqlValueView::Text(t)).push(
                        SqlValueView::Text(items[k as int]),
                    ));
                    k = k + 1;
                }
                assert(items.take(pieces@.len() as int) =~= items);
            },
            OperatorKind::Comparison => {
                sql.append(self.column.as_str());
                sql.append(" ");
                sql.append(self.operator.as_str());
                sql.append(" ?");
                let p = filter_value_param(&self.value);
                params.push(p);
                assert(values_view(params@) =~= params0 + bound_as(self@, kind));
            },
        }
    }
}

} // verus!
