//! Properties that relate several operations of the library.
use vstd::prelude::*;
use crate::condition::{ConditionView, OperatorKind, kind_of, membership_text, rendered, bound};
use crate::filtered_table::{FilteredTable, where_clause, where_params, where_condition_spec};
use crate::statement::StatementView;
use crate::table::insert_outcome;
use crate::text::split_commas;
use crate::value::{DynamicValueView, FilterValueView, QueryError, insertable};

verus! {

/// The number of parameters a condition binds, by its operator: none for a
/// null test, one per comma-separated item for `IN`, one for any other.
pub open spec fn condition_param_count(c: ConditionView) -> nat {
    match kind_of(c.operator) {
        OperatorKind::NullTest => 0,
        OperatorKind::Membership => split_commas(membership_text(c.value)).len(),
        OperatorKind::Comparison => 1,
    }
}

/// The number of parameters a sequence of conditions binds, summed.
pub open spec fn param_count(cs: Seq<ConditionView>) -> nat
    decreases cs.len(),
{
    if cs.len() == 0 {
        0
    } else {
        param_count(cs.drop_last()) + condition_param_count(cs.last())
    }
}

/// A chain's WHERE clause binds as many parameters as its `IN` conditions have
/// items, plus one for each condition that is neither `IN` nor a null test.
pub proof fn lemma_param_count(cs: Seq<ConditionView>)
    ensures
        where_params(cs).len() == param_count(cs),
    decreases cs.len(),
{
    if cs.len() > 0 {
        lemma_param_count(cs.drop_last());
    }
}

/// Narrowing a chain with `where_` conjoins the new condition at the end of the
/// chain's WHERE clause with `" AND "`, and binds its parameters after the
/// chain's.
pub proof fn lemma_where_extends_clause(
    chain: &FilteredTable,
    column: Seq<char>,
    op_or_value: FilterValueView,
    value_opt: Option<FilterValueView>,
)
    requires
        where_condition_spec(column, op_or_value, value_opt) is Ok,
    ensures
        ({
            let c = where_condition_spec(column, op_or_value, value_opt)->Ok_0;
            let cs = chain@.conditions;
            &&& where_clause(cs.push(c)) == where_clause(cs) + " AND "@ + rendered(c)
            &&& where_params(cs.push(c)) == where_params(cs) + bound(c)
        }),
{
    chain.lemma_not_empty();
    let c = where_condition_spec(column, op_or_value, value_opt)->Ok_0;
    let cs = chain@.conditions;
    let next = cs.push(c);
    assert(next.drop_last() =~= cs);
    assert(next.map_values(|x: ConditionView| rendered(x)).drop_last() =~= cs.map_values(
        |x: ConditionView| rendered(x),
    ));
}

/// An insert of a batch in which any field of any payload holds an unsupported
/// value comes to an error and no statement at all: none of the batch, not
/// even the payloads before the faulty one, is written.
pub proof fn lemma_insert_all_or_nothing(
    table: Seq<char>,
    rows: Seq<Seq<(Seq<char>, DynamicValueView)>>,
    i: int,
    j: int,
)
    requires
        0 <= i < rows.len(),
        0 <= j < rows[i].len(),
        rows[i][j].1 is Unsupported,
    ensures
        insert_outcome(table, rows) == Err::<Seq<StatementView>, QueryError>(
            QueryError::UnsupportedInsertValue,
        ),
{
    assert(!insertable(rows[i][j].1));
}

} // verus!
