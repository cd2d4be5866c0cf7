//! The predicate chain: an immutable conjunction of conditions on a table, with
//! an optional ordering, and its compilation into statements.
use vstd::prelude::*;
use crate::condition::{Condition, ConditionView, rendered, bound};
use crate::laws::{param_count, lemma_param_count};
use crate::statement::{Statement, StatementView};
use crate::table::Table;
use crate::text::join;
use crate::value::{
    SqlValue, SqlValueView, FilterValue, FilterValueView, DynamicValue, DynamicValueView, QueryError,
    values_view, coerced, updatable, update_value,
};

verus! {

/// The mathematical model of a [`FilteredTable`].
pub struct FilteredTableView {
    /// The relation's name.
    pub table: Seq<char>,
    /// The conditions, in the order the chain received them; never empty.
    pub conditions: Seq<ConditionView>,
    /// The ordering column and direction, if any.
    pub order: Option<(Seq<char>, Seq<char>)>,
}

/// The conditions' SQL fragments joined by `" AND "`.
pub open spec fn where_clause(cs: Seq<ConditionView>) -> Seq<char> {
    join(cs.map_values(|c: ConditionView| rendered(c)), " AND "@)
}

/// The parameters the conditions bind, condition after condition.
pub open spec fn where_params(cs: Seq<ConditionView>) -> Seq<SqlValueView>
    decreases cs.len(),
{
    if cs.len() == 0 {
        Seq::empty()
    } else {
        where_params(cs.drop_last()) + bound(cs.last())
    }
}

/// The `ORDER BY` suffix of an ordering, empty without one.
pub open spec fn order_clause(order: Option<(Seq<char>, Seq<char>)>) -> Seq<char> {
    match order {
        None => Seq::empty(),
        Some((column, direction)) => " ORDER BY "@ + column + " "@ + direction,
    }
}

/// The statement that reads the rows of a chain.
pub open spec fn select_statement(f: FilteredTableView) -> StatementView {
    StatementView {
        sql: "SELECT * FROM "@ + f.table + " WHERE "@ + where_clause(f.conditions) + order_clause(
            f.order,
        ),
        params: where_params(f.conditions),
    }
}

/// The statement that deletes the rows of a chain.
pub open spec fn delete_statement(f: FilteredTableView) -> StatementView {
    StatementView {
        sql: "DELETE FROM "@ + f.table + " WHERE "@ + where_clause(f.conditions),
        params: where_params(f.conditions),
    }
}

/// The chain with its ordering forced to `direction`: on its own ordering
/// column, or on the row identity when it has none.
pub open spec fn forced_order(f: FilteredTableView, direction: Seq<char>) -> FilteredTableView {
    let column = match f.order {
        Some((c, _)) => c,
        None => "rowid"@,
    };
    FilteredTableView { order: Some((column, direction)), ..f }
}

/// The condition of a `where_` call: `(column, operator, value)` when a value
/// is given, `(column, "=", op_or_value)` when not; an integer in place of the
/// operator is an error.
pub open spec fn where_condition_spec(
    column: Seq<char>,
    op_or_value: FilterValueView,
    value_opt: Option<FilterValueView>,
) -> Result<ConditionView, QueryError> {
    match value_opt {
        Some(v) => match op_or_value {
            FilterValueView::Text(op) => Ok(ConditionView { column, operator: op, value: v }),
            FilterValueView::Integer(_) => Err(QueryError::InvalidWhereArguments),
        },
        None => Ok(ConditionView { column, operator: "="@, value: op_or_value }),
    }
}

/// The condition of a `where_` call; see [`where_condition_spec`].
pub fn where_condition(column: String, op_or_value: FilterValue, value_opt: Option<FilterValue>) -> (r:
    Result<Condition, QueryError>)
    ensures
        r is Ok <==> where_condition_spec(column@, op_or_value@, option_view(value_opt)) is Ok,
        r is Ok ==> r->Ok_0@ == where_condition_spec(
            column@,
            op_or_value@,
            option_view(value_opt),
        )->Ok_0,
        r is Err ==> r->Err_0 == where_condition_spec(
            column@,
            op_or_value@,
            option_view(value_opt),
        )->Err_0,
{
    match value_opt {
        Some(v) => match op_or_value {
            FilterValue::Text(op) => Ok(Condition::new(column, op, v)),
            FilterValue::Integer(_) => Err(QueryError::InvalidWhereArguments),
        },
        None => Ok(Condition::new(column, String::from_str("="), op_or_value)),
    }
}

/// The view of an optional filter value.
pub open spec fn option_view(v: Option<FilterValue>) -> Option<FilterValueView> {
    match v {
        Some(x) => Some(x@),
        None => None,
    }
}

/// The view of an optional ordering.
pub open spec fn order_view(o: Option<(String, String)>) -> Option<(Seq<char>, Seq<char>)> {
    match o {
        Some((c, d)) => Some((c@, d@)),
        None => None,
    }
}

/// The views of a payload's fields, in order.
pub open spec fn payload_view(p: Seq<(String, DynamicValue)>) -> Seq<(Seq<char>, DynamicValueView)> {
    p.map_values(|e: (String, DynamicValue)| (e.0@, e.1@))
}

/// The engine values of a payload's fields, in order.
pub open spec fn payload_values(p: Seq<(Seq<char>, DynamicValueView)>) -> Seq<SqlValueView> {
    p.map_values(|e: (Seq<char>, DynamicValueView)| coerced(e.1))
}

/// `col = ?` for each payload field, joined by `", "`.
pub open spec fn set_clause(p: Seq<(Seq<char>, DynamicValueView)>) -> Seq<char> {
    join(p.map_values(|e: (Seq<char>, DynamicValueView)| e.0 + " = ?"@), ", "@)
}

/// The statement that sets the payload's fields on the rows of a chain; the
/// payload's values are bound before the conditions'.
pub open spec fn update_statement(
    f: FilteredTableView,
    p: Seq<(Seq<char>, DynamicValueView)>,
) -> StatementView {
    StatementView {
        sql: "UPDATE "@ + f.table + " SET "@ + set_clause(p) + " WHERE "@ + where_clause(
            f.conditions,
        ),
        params: payload_values(p) + where_params(f.conditions),
    }
}

/// What an update of a chain with a payload comes to: its statement, or an
/// error when a field holds a value other than a boolean, a number or text.
pub open spec fn update_outcome(f: FilteredTableView, p: Seq<(Seq<char>, DynamicValueView)>) -> Result<
    StatementView,
    QueryError,
> {
    if forall|i: int| 0 <= i < p.len() ==> updatable(#[trigger] p[i].1) {
        Ok(update_statement(f, p))
    } else {
        Err(QueryError::UnsupportedUpdateValue)
    }
}

/// The view of a statement or an error.
pub open spec fn statement_result_view(r: Result<Statement, QueryError>) -> Result<
    StatementView,
    QueryError,
> {
    match r {
        Ok(s) => Ok(s@),
        Err(e) => Err(e),
    }
}

/// A chain of conditions on a table, with an optional ordering.
///
/// `head` is the latest condition; `extra_conditions` hold the earlier ones,
/// oldest first.
pub struct FilteredTable {
    table: Table,
    head: Condition,
    extra_conditions: Vec<Condition>,
    order_by: Option<(String, String)>,
}

impl View for FilteredTable {
    type V = FilteredTableView;

    closed spec fn view(&self) -> FilteredTableView {
        FilteredTableView {
            table: self.table@,
            conditions: self.extra_conditions@.map_values(|c: Condition| c@).push(self.head@),
            order: order_view(self.order_by),
        }
    }
}

fn clone_order(o: &Option<(String, String)>) -> (r: Option<(String, String)>)
    ensures
        order_view(r) == order_view(*o),
{
    match o {
        Some((c, d)) => Some((c.clone(), d.clone())),
        None => None,
    }
}

impl Clone for FilteredTable {
    fn clone(&self) -> (r: Self)
        ensures
            r@ == self@,
    {
        let extra = self.extra_conditions.clone();
        assert(extra@ =~= self.extra_conditions@);
        FilteredTable {
            table: self.table.clone(),
            head: self.head.clone(),
            extra_conditions: extra,
            order_by: clone_order(&self.order_by),
        }
    }
}

impl FilteredTable {
    /// A chain always holds at least one condition.
    pub proof fn lemma_not_empty(&self)
        ensures
            self@.conditions.len() > 0,
    {
    }

    /// The chain of the single condition `head` on `table`, ordered by `order_by`.
    pub fn single(table: Table, head: Condition, order_by: Option<(String, String)>) -> (r:
        FilteredTable)
        ensures
            r@ == (FilteredTableView {
                table: table@,
                conditions: seq![head@],
                order: order_view(order_by),
            }),
    {
        let r = FilteredTable { table, head, extra_conditions: Vec::new(), order_by };
        assert(r@.conditions =~= seq![head@]);
        r
    }

    /// The chain narrowed by one more condition; see [`where_condition_spec`]
    /// for the two call shapes. The new chain has no ordering.
    pub fn where_(&self, column: String, op_or_value: FilterValue, value_opt: Option<FilterValue>) -> (r:
        Result<FilteredTable, QueryError>)
        ensures
            ({
                let c = where_condition_spec(column@, op_or_value@, option_view(value_opt));
                &&& r is Ok <==> c is Ok
                &&& r is Ok ==> r->Ok_0@ == (FilteredTableView {
                    table: self@.table,
                    conditions: self@.conditions.push(c->Ok_0),
                    order: None,
                })
                &&& r is Err ==> r->Err_0 == c->Err_0
            }),
    {
        let c = where_condition(column, op_or_value, value_opt);
        match c {
            Ok(cond) => {
                let mut extra = self.extra_conditions.clone();
                assert(extra@ =~= self.extra_conditions@);
                extra.push(self.head.clone());
                let r = FilteredTable {
                    table: self.table.clone(),
                    head: cond,
                    extra_conditions: extra,
                    order_by: None,
                };
                assert(r@.conditions =~= self@.conditions.push(cond@));
                Ok(r)
            },
            Err(e) => Err(e),
        }
    }

    /// The chain ordered by `column`, in `direction` (ascending when none is
    /// given). The chain itself is left as it was.
    pub fn order_by(&self, column: String, direction: Option<String>) -> (r: FilteredTable)
        ensures
            r@ == (FilteredTableView {
                order: Some(
                    (
                        column@,
                        match direction {
                            Some(d) => d@,
                            None => "ASC"@,
                        },
                    ),
                ),
                ..self@
            }),
    {
        let dir = match direction {
            Some(d) => d,
            None => String::from_str("ASC"),
        };
        let extra = self.extra_conditions.clone();
        assert(extra@ =~= self.extra_conditions@);
        FilteredTable {
            table: self.table.clone(),
            head: self.head.clone(),
            extra_conditions: extra,
            order_by: Some((column, dir)),
        }
    }

    /// Appends the conditions' SQL, joined by `" AND "`, to `sql` and their
    /// parameters to `params`.
    pub fn build_conditions(&self, sql: &mut String, params: &mut Vec<SqlValue>)
        ensures
            final(sql)@ == old(sql)@ + where_clause(self@.conditions),
            values_view(final(params)@) == values_view(old(params)@) + where_params(
                self@.conditions,
            ),
            final(params)@.len() == old(params)@.len() + param_count(self@.conditions),
    {
        let ghost cs = self@.conditions;
        let ghost sql0 = sql@;
        let ghost params0 = values_view(params@);
        assert(params0.len() == params@.len());
        let n = self.extra_conditions.len();
        let mut i: usize = 0;
        assert(cs.take(0) =~= Seq::<ConditionView>::empty());
        assert(cs.take(0).map_values(|c: ConditionView| rendered(c)) =~= Seq::<Seq<char>>::empty());
        assert(values_view(params@) =~= params0 + where_params(cs.take(0)));
        while i < n
            invariant
                n + 1 == cs.len(),
                cs == self@.conditions,
                i <= n,
                sql@ == sql0 + where_clause(cs.take(i as int)),
                values_view(params@) == params0 + where_params(cs.take(i as int)),
            decreases n - i,
        {
            let c = &self.extra_conditions[i];
            assert(c@ == cs[i as int]);
            self.append_condition(c, i > 0, sql, params, Ghost(sql0), Ghost(params0), Ghost(i as int));
            i = i + 1;
        }
        assert(self.head@ == cs[n as int]);
        self.append_condition(&self.head, n > 0, sql, params, Ghost(sql0), Ghost(params0), Ghost(n as int));
        assert(cs.take(n + 1) =~= cs);
        proof {
            lemma_param_count(cs);
            assert(values_view(params@).len() == params@.len());
        }
    }

    /// One step of [`FilteredTable::build_conditions`]: appends the condition at
    /// position `i`, after a separator unless it is the first.
    fn append_condition(
        &self,
        c: &Condition,
        separate: bool,
        sql: &mut String,
        params: &mut Vec<SqlValue>,
        sql0: Ghost<Seq<char>>,
        params0: Ghost<Seq<SqlValueView>>,
        i: Ghost<int>,
    )
        requires
            0 <= i@ < self@.conditions.len(),
            c@ == self@.conditions[i@],
            separate == (i@ > 0),
            old(sql)@ == sql0@ + where_clause(self@.conditions.take(i@)),
            values_view(old(params)@) == params0@ + where_params(self@.conditions.take(i@)),
        ensures
            final(sql)@ == sql0@ + where_clause(self@.conditions.take(i@ + 1)),
            values_view(final(params)@) == params0@ + where_params(
                self@.conditions.take(i@ + 1),
            ),
    {
        let ghost cs = self@.conditions;
        if separate {
            sql.append(" AND ");
        }
        c.render(sql, params);
        proof {
            let next = cs.take(i@ + 1);
            assert(next.drop_last() =~= cs.take(i@));
            assert(next.last() == cs[i@]);
            let parts = next.map_values(|c: ConditionView| rendered(c));
            assert(parts.drop_last() =~= cs.take(i@).map_values(|c: ConditionView| rendered(c)));
            assert(sql@ =~= sql0@ + where_clause(next));
            assert(values_view(params@) =~= params0@ + where_params(next));
        }
    }

    /// The statement that reads every row of the chain, in the chain's ordering
    /// when it has one.
    pub fn all(&self) -> (r: Statement)
        ensures
            r@ == select_statement(self@),
    {
        let mut sql = String::from_str("SELECT * FROM ");
        sql.append(self.table.name());
        sql.append(" WHERE ");
        let mut params: Vec<SqlValue> = Vec::new();
        assert(values_view(params@) =~= Seq::<SqlValueView>::empty());
        self.build_conditions(&mut sql, &mut params);
        match &self.order_by {
            Some((column, direction)) => {
                sql.append(" ORDER BY ");
                sql.append(column.as_str());
                sql.append(" ");
                sql.append(direction.as_str());
            },
            None => {},
        }
        let r = Statement { sql, params };
        assert(r@.sql =~= select_statement(self@).sql);
        assert(r@.params =~= select_statement(self@).params);
        r
    }

    /// The same as [`FilteredTable::all`].
    pub fn get(&self) -> (r: Statement)
        ensures
            r@ == select_statement(self@),
    {
        self.all()
    }

    /// The chain with its ordering forced to `direction`.
    fn forced(&self, direction: &str) -> (r: FilteredTable)
        ensures
            r@ == forced_order(self@, direction@),
    {
        let column = match &self.order_by {
            Some((c, _)) => c.clone(),
            None => String::from_str("rowid"),
        };
        let extra = self.extra_conditions.clone();
        assert(extra@ =~= self.extra_conditions@);
        FilteredTable {
            table: self.table.clone(),
            head: self.head.clone(),
            extra_conditions: extra,
            order_by: Some((column, String::from_str(direction))),
        }
    }

    /// The statement whose first row is the chain's first: ascending on the
    /// chain's ordering column, or on the row identity when it has none.
    pub fn first(&self) -> (r: Statement)
        ensures
            r@ == select_statement(forced_order(self@, "ASC"@)),
    {
        self.forced("ASC").all()
    }

    /// The statement whose first row is the chain's last: descending on the
    /// chain's ordering column, or on the row identity when it has none.
    pub fn last(&self) -> (r: Statement)
        ensures
            r@ == select_statement(forced_order(self@, "DESC"@)),
    {
        self.forced("DESC").all()
    }

    /// The statement that deletes every row of the chain.
    pub fn destroy(&self) -> (r: Statement)
        ensures
            r@ == delete_statement(self@),
    {
        let mut sql = String::from_str("DELETE FROM ");
        sql.append(self.table.name());
        sql.append(" WHERE ");
        let mut params: Vec<SqlValue> = Vec::new();
        assert(values_view(params@) =~= Seq::<SqlValueView>::empty());
        self.build_conditions(&mut sql, &mut params);
        let r = Statement { sql, params };
        assert(r@.sql =~= delete_statement(self@).sql);
        assert(r@.params =~= delete_statement(self@).params);
        r
    }
    /// The statement that sets the payload's fields, in order, on every row of
    /// the chain; an error when a field holds a value other than a boolean, a
    /// number or text.
    pub fn update(&self, payload: &Vec<(String, DynamicValue)>) -> (r: Result<Statement, QueryError>)
        ensures
            statement_result_view(r) == update_outcome(self@, payload_view(payload@)),
    {
        let ghost p = payload_view(payload@);
        let ghost sets = p.map_values(|e: (Seq<char>, DynamicValueView)| e.0 + " = ?"@);
        let mut sql = String::from_str("UPDATE ");
        sql.append(self.table.name());
        sql.append(" SET ");
        let ghost sql0 = sql@;
        let mut params: Vec<SqlValue> = Vec::new();
        let mut i: usize = 0;
        assert(sets.take(0) =~= Seq::<Seq<char>>::empty());
        assert(values_view(params@) =~= payload_values(p.take(0)));
        while i < payload.len()
            invariant
                i <= payload@.len(),
                p == payload_view(payload@),
                sets == p.map_values(|e: (Seq<char>, DynamicValueView)| e.0 + " = ?"@),
                sql@ == sql0 + join(sets.take(i as int), ", "@),
                values_view(params@) == payload_values(p.take(i as int)),
                forall|j: int| 0 <= j < i ==> updatable(#[trigger] p[j].1),
            decreases payload@.len() - i,
        {
            let ghost before = values_view(params@);
            assert(p[i as int] == (payload@[i as int].0@, payload@[i as int].1@));
            let value = match update_value(&payload[i].1) {
                Ok(v) => v,
                Err(e) => {
                    assert(!updatable(p[i as int].1));
                    return Err(e);
                },
            };
            if i > 0 {
                sql.append(", ");
            }
            sql.append(payload[i].0.as_str());
            sql.append(" = ?");
            params.push(value);
            proof {
                assert(sets.take(i + 1).drop_last() =~= sets.take(i as int));
                assert(sql@ =~= sql0 + join(sets.take(i + 1), ", "@));
                assert(p.take(i + 1).drop_last() =~= p.take(i as int));
                assert(values_view(params@) =~= before.push(value@));
                assert(values_view(params@) =~= payload_values(p.take(i + 1)));
            }
            i = i + 1;
        }
        assert(sets.take(payload@.len() as int) =~= sets);
        assert(p.take(payload@.len() as int) =~= p);
        sql.append(" WHERE ");
        let mut where_values: Vec<SqlValue> = Vec::new();
        assert(values_view(where_values@) =~= Seq::<SqlValueView>::empty());
        self.build_conditions(&mut sql, &mut where_values);
        let ghost set_values = values_view(params@);
        params.append(&mut where_values);
        assert(values_view(params@) =~= set_values + where_params(self@.conditions));
        let r = Statement { sql, params };
        assert(r@.sql =~= update_statement(self@, p).sql);
        assert(r@.params =~= update_statement(self@, p).params);
        Ok(r)
    }
}

} // verus!
