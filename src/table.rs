//! A named relation: the entry point of every chain and of inserts.
use vstd::prelude::*;
use crate::condition::{Condition, ConditionView};
use crate::filtered_table::{
    FilteredTable, FilteredTableView, select_statement, delete_statement,
    where_condition, where_condition_spec, option_view, order_view, payload_view, payload_values,
    update_outcome, statement_result_view,
};
use crate::statement::{Statement, StatementView, statements_view};
use crate::text::{join, placeholders, texts_view, join_texts, placeholder_list};
use crate::value::{
    SqlValue, FilterValue, FilterValueView, DynamicValue, DynamicValueView, QueryError,
    values_view, coerce_in, coerced, is_absent, insertable,
};

verus! {

/// The condition that holds of every row: `1 = 1`, with the second `1` bound.
pub open spec fn always_true() -> ConditionView {
    ConditionView { column: "1"@, operator: "="@, value: FilterValueView::Integer(1) }
}

/// The condition `id = ?` on the given id.
pub open spec fn id_condition(id: FilterValueView) -> ConditionView {
    ConditionView { column: "id"@, operator: "="@, value: id }
}

/// The chain of one condition on a table.
pub open spec fn single_chain(
    table: Seq<char>,
    c: ConditionView,
    order: Option<(Seq<char>, Seq<char>)>,
) -> FilteredTableView {
    FilteredTableView { table, conditions: seq![c], order }
}

/// The fields of a payload that an insert writes: all but the null and
/// undefined ones, in order.
pub open spec fn kept_fields(p: Seq<(Seq<char>, DynamicValueView)>) -> Seq<
    (Seq<char>, DynamicValueView),
>
    decreases p.len(),
{
    if p.len() == 0 {
        Seq::empty()
    } else {
        let prev = kept_fields(p.drop_last());
        if is_absent(p.last().1) {
            prev
        } else {
            prev.push(p.last())
        }
    }
}

/// The column names of payload fields, in order.
pub open spec fn field_names(p: Seq<(Seq<char>, DynamicValueView)>) -> Seq<Seq<char>> {
    p.map_values(|e: (Seq<char>, DynamicValueView)| e.0)
}

/// The statement that inserts one row of the given fields.
pub open spec fn insert_statement(table: Seq<char>, fields: Seq<(Seq<char>, DynamicValueView)>) -> StatementView {
    StatementView {
        sql: "INSERT INTO "@ + table + " ("@ + join(field_names(fields), ", "@) + ") VALUES ("@
            + placeholders(fields.len()) + ")"@,
        params: payload_values(fields),
    }
}

/// One insert statement for each payload, in order, skipping the payloads
/// with no field to write.
pub open spec fn insert_plan(table: Seq<char>, rows: Seq<Seq<(Seq<char>, DynamicValueView)>>) -> Seq<
    StatementView,
>
    decreases rows.len(),
{
    if rows.len() == 0 {
        Seq::empty()
    } else {
        let prev = insert_plan(table, rows.drop_last());
        let fields = kept_fields(rows.last());
        if fields.len() == 0 {
            prev
        } else {
            prev.push(insert_statement(table, fields))
        }
    }
}

/// Whether every field of every payload holds a value an insert accepts.
pub open spec fn batch_insertable(rows: Seq<Seq<(Seq<char>, DynamicValueView)>>) -> bool {
    forall|i: int, j: int|
        0 <= i < rows.len() && 0 <= j < rows[i].len() ==> insertable(#[trigger] rows[i][j].1)
}

/// What an insert of a batch of payloads comes to: all its statements, or,
/// when any field of any payload holds an unsupported value, an error and none.
pub open spec fn insert_outcome(table: Seq<char>, rows: Seq<Seq<(Seq<char>, DynamicValueView)>>) -> Result<
    Seq<StatementView>,
    QueryError,
> {
    if batch_insertable(rows) {
        Ok(insert_plan(table, rows))
    } else {
        Err(QueryError::UnsupportedInsertValue)
    }
}

/// The views of a batch of payloads.
pub open spec fn rows_view(rows: Seq<Vec<(String, DynamicValue)>>) -> Seq<
    Seq<(Seq<char>, DynamicValueView)>,
> {
    rows.map_values(|r: Vec<(String, DynamicValue)>| payload_view(r@))
}

/// The view of a batch of statements or an error.
pub open spec fn statements_result_view(r: Result<Vec<Statement>, QueryError>) -> Result<
    Seq<StatementView>,
    QueryError,
> {
    match r {
        Ok(v) => Ok(statements_view(v@)),
        Err(e) => Err(e),
    }
}

/// A relation, by name. Cheap to clone.
pub struct Table {
    name: String,
}

impl View for Table {
    /// The relation's name.
    type V = Seq<char>;

    closed spec fn view(&self) -> Seq<char> {
        self.name@
    }
}

impl Clone for Table {
    fn clone(&self) -> (r: Self)
        ensures
            r@ == self@,
    {
        Table { name: self.name.clone() }
    }
}

impl Table {
    /// The relation called `name`.
    pub fn new(name: String) -> (r: Table)
        ensures
            r@ == name@,
    {
        Table { name }
    }

    /// The relation's name.
    pub fn name(&self) -> (r: &str)
        ensures
            r@ == self@,
    {
        self.name.as_str()
    }

    /// The chain of one condition on this table.
    fn chain(&self, c: Condition, order: Option<(String, String)>) -> (r: FilteredTable)
        ensures
            r@ == single_chain(self@, c@, order_view(order)),
    {
        FilteredTable::single(self.clone(), c, order)
    }

    /// The condition that holds of every row.
    fn always_true_condition() -> (r: Condition)
        ensures
            r@ == always_true(),
    {
        Condition::new(String::from_str("1"), String::from_str("="), FilterValue::Integer(1))
    }

    /// The condition `id = ?`.
    fn id_condition(id: FilterValue) -> (r: Condition)
        ensures
            r@ == id_condition(id@),
    {
        Condition::new(String::from_str("id"), String::from_str("="), id)
    }

    /// The statement that reads the row whose id is `id`: at most one row, none
    /// when no row has it.
    pub fn find(&self, id: FilterValue) -> (r: Statement)
        ensures
            r@ == select_statement(single_chain(self@, id_condition(id@), Some(("rowid"@, "ASC"@)))),
    {
        self.chain(Table::id_condition(id), None).first()
    }

    /// The statement whose first row is the table's first by id.
    pub fn first(&self) -> (r: Statement)
        ensures
            r@ == select_statement(single_chain(self@, always_true(), Some(("id"@, "ASC"@)))),
    {
        let order = Some((String::from_str("id"), String::from_str("ASC")));
        self.chain(Table::always_true_condition(), order).first()
    }

    /// The statement whose first row is the table's last by id.
    pub fn last(&self) -> (r: Statement)
        ensures
            r@ == select_statement(single_chain(self@, always_true(), Some(("id"@, "DESC"@)))),
    {
        let order = Some((String::from_str("id"), String::from_str("DESC")));
        self.chain(Table::always_true_condition(), order).last()
    }

    /// The statement that reads every row of the table.
    pub fn all(&self) -> (r: Statement)
        ensures
            r@ == select_statement(single_chain(self@, always_true(), None)),
    {
        self.chain(Table::always_true_condition(), None).all()
    }

    /// The same as [`Table::all`].
    pub fn get(&self) -> (r: Statement)
        ensures
            r@ == select_statement(single_chain(self@, always_true(), None)),
    {
        self.all()
    }

    /// A chain of one condition on this table: `(column, operator, value)` when
    /// `value_opt` is given, `(column, "=", op_or_value)` when not.
    pub fn where_(&self, column: String, op_or_value: FilterValue, value_opt: Option<FilterValue>) -> (r:
        Result<FilteredTable, QueryError>)
        ensures
            ({
                let c = where_condition_spec(column@, op_or_value@, option_view(value_opt));
                &&& r is Ok <==> c is Ok
                &&& r is Ok ==> r->Ok_0@ == single_chain(self@, c->Ok_0, None)
                &&& r is Err ==> r->Err_0 == c->Err_0
            }),
    {
        match where_condition(column, op_or_value, value_opt) {
            Ok(c) => Ok(self.chain(c, None)),
            Err(e) => Err(e),
        }
    }

    /// The statement that inserts one payload, or `None` when it has no field
    /// to write; an error when a field holds an unsupported value.
    fn insert_row(&self, row: &Vec<(String, DynamicValue)>) -> (r: Result<Option<Statement>, QueryError>)
        ensures
            ({
                let p = payload_view(row@);
                &&& r is Ok <==> (forall|j: int| 0 <= j < p.len() ==> insertable(#[trigger] p[j].1))
                &&& r is Err ==> r->Err_0 == QueryError::UnsupportedInsertValue
                &&& r is Ok ==> (r->Ok_0 is None <==> kept_fields(p).len() == 0)
                &&& r is Ok && r->Ok_0 is Some ==> r->Ok_0->Some_0@ == insert_statement(
                    self@,
                    kept_fields(p),
                )
            }),
    {
        let ghost p = payload_view(row@);
        let mut columns: Vec<String> = Vec::new();
        let mut params: Vec<SqlValue> = Vec::new();
        let mut i: usize = 0;
        assert(p.take(0) =~= Seq::<(Seq<char>, DynamicValueView)>::empty());
        assert(texts_view(columns@) =~= field_names(kept_fields(p.take(0))));
        assert(values_view(params@) =~= payload_values(kept_fields(p.take(0))));
        while i < row.len()
            invariant
                i <= row@.len(),
                p == payload_view(row@),
                texts_view(columns@) == field_names(kept_fields(p.take(i as int))),
                values_view(params@) == payload_values(kept_fields(p.take(i as int))),
                forall|j: int| 0 <= j < i ==> insertable(#[trigger] p[j].1),
            decreases row@.len() - i,
        {
            let ghost kept_before = kept_fields(p.take(i as int));
            assert(p[i as int] == (row@[i as int].0@, row@[i as int].1@));
            assert(p.take(i + 1).drop_last() =~= p.take(i as int));
            assert(p.take(i + 1).last() == p[i as int]);
            match &row[i].1 {
                DynamicValue::Unsupported => {
                    return Err(QueryError::UnsupportedInsertValue);
                },
                DynamicValue::Undefined | DynamicValue::Null => {},
                value => {
                    let ghost names_before = texts_view(columns@);
                    let ghost values_before = values_view(params@);
                    columns.push(row[i].0.clone());
                    params.push(coerce_in(value));
                    assert(texts_view(columns@) =~= names_before.push(row@[i as int].0@));
                    assert(values_view(params@) =~= values_before.push(
                        coerced(row@[i as int].1@),
                    ));
                    assert(field_names(kept_before.push(p[i as int])) =~= field_names(kept_before).push(
                        p[i as int].0,
                    ));
                    assert(payload_values(kept_before.push(p[i as int])) =~= payload_values(
                        kept_before,
                    ).push(coerced(p[i as int].1)));
                },
            }
            i = i + 1;
        }
        assert(p.take(row@.len() as int) =~= p);
        if columns.len() == 0 {
            return Ok(None);
        }
        let mut sql = String::from_str("INSERT INTO ");
        sql.append(self.name.as_str());
        sql.append(" (");
        let names = join_texts(&columns, ", ");
        sql.append(names.as_str());
        sql.append(") VALUES (");
        let marks = placeholder_list(columns.len());
        sql.append(marks.as_str());
        sql.append(")");
        let r = Statement { sql, params };
        assert(r@.sql =~= insert_statement(self@, kept_fields(p)).sql);
        Ok(Some(r))
    }

    /// The statements that insert a batch of payloads, one for each payload
    /// with a field to write, in order; each payload's keys are its columns.
    /// When any field of any payload holds an unsupported value the result is
    /// an error and no statement, so that no part of the batch is written.
    /// The statements are meant to run in one transaction.
    pub fn insert(&self, rows: &Vec<Vec<(String, DynamicValue)>>) -> (r: Result<Vec<Statement>, QueryError>)
        ensures
            statements_result_view(r) == insert_outcome(self@, rows_view(rows@)),
    {
        let ghost rs = rows_view(rows@);
        let mut out: Vec<Statement> = Vec::new();
        let mut i: usize = 0;
        assert(rs.take(0) =~= Seq::<Seq<(Seq<char>, DynamicValueView)>>::empty());
        assert(statements_view(out@) =~= insert_plan(self@, rs.take(0)));
        while i < rows.len()
            invariant
                i <= rows@.len(),
                rs == rows_view(rows@),
                statements_view(out@) == insert_plan(self@, rs.take(i as int)),
                forall|k: int, j: int|
                    0 <= k < i && 0 <= j < rs[k].len() ==> insertable(#[trigger] rs[k][j].1),
            decreases rows@.len() - i,
        {
            let ghost before = statements_view(out@);
            assert(rs[i as int] == payload_view(rows@[i as int]@));
            assert(rs.take(i + 1).drop_last() =~= rs.take(i as int));
            assert(rs.take(i + 1).last() == rs[i as int]);
            match self.insert_row(&rows[i]) {
                Err(e) => {
                    assert(!batch_insertable(rs));
                    return Err(e);
                },
                Ok(None) => {},
                Ok(Some(s)) => {
                    out.push(s);
                    assert(statements_view(out@) =~= before.push(s@));
                },
            }
            i = i + 1;
        }
        assert(rs.take(rows@.len() as int) =~= rs);
        Ok(out)
    }

    /// The same as [`Table::insert`].
    pub fn create(&self, rows: &Vec<Vec<(String, DynamicValue)>>) -> (r: Result<Vec<Statement>, QueryError>)
        ensures
            statements_result_view(r) == insert_outcome(self@, rows_view(rows@)),
    {
        self.insert(rows)
    }

    /// The statement that sets the payload's fields on the row whose id is `id`;
    /// an error when a field holds a value other than a boolean, a number or
    /// text.
    pub fn update(&self, id: FilterValue, payload: &Vec<(String, DynamicValue)>) -> (r: Result<
        Statement,
        QueryError,
    >)
        ensures
            statement_result_view(r) == update_outcome(
                single_chain(self@, id_condition(id@), None),
                payload_view(payload@),
            ),
    {
        self.chain(Table::id_condition(id), None).update(payload)
    }

    /// A chain of every row of the table, ordered by `column` in `direction`
    /// (ascending when none is given).
    pub fn order_by(&self, column: String, direction: Option<String>) -> (r: FilteredTable)
        ensures
            r@ == single_chain(
                self@,
                always_true(),
                Some(
                    (
                        column@,
                        match direction {
                            Some(d) => d@,
                            None => "ASC"@,
                        },
                    ),
                ),
            ),
    {
        let dir = match direction {
            Some(d) => d,
            None => String::from_str("ASC"),
        };
        self.chain(Table::always_true_condition(), Some((column, dir)))
    }

    /// The statement that deletes the row whose id is `id`; it deletes nothing
    /// when no row has it.
    pub fn destroy(&self, id: FilterValue) -> (r: Statement)
        ensures
            r@ == delete_statement(single_chain(self@, id_condition(id@), None)),
    {
        self.chain(Table::id_condition(id), None).destroy()
    }
}

} // verus!
