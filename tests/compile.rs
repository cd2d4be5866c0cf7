use fluent_query::condition::operator_kind;
use fluent_query::text::{decimal, trim};
use fluent_query::value::{coerce_in, update_value};
use fluent_query::{Condition, DynamicValue, FilterValue, OperatorKind, QueryError, SqlValue, Statement, Table};

fn text(s: &str) -> FilterValue {
    FilterValue::Text(s.to_string())
}

fn users() -> Table {
    Table::new("users".to_string())
}

fn field(name: &str, value: DynamicValue) -> (String, DynamicValue) {
    (name.to_string(), value)
}

#[test]
fn chained_where_with_in_and_order_compiles() {
    let stmt = users()
        .where_("age".to_string(), text(">"), Some(FilterValue::Integer(18)))
        .unwrap()
        .where_("name".to_string(), text("IN"), Some(text("ann,bob")))
        .unwrap()
        .order_by("id".to_string(), None)
        .all();
    assert_eq!(stmt.sql, "SELECT * FROM users WHERE age > ? AND name IN (?, ?) ORDER BY id ASC");
    assert_eq!(
        stmt.params,
        vec![
            SqlValue::Integer(18),
            SqlValue::Text("ann".to_string()),
            SqlValue::Text("bob".to_string()),
        ]
    );
}

#[test]
fn where_appends_condition_with_and() {
    let c = users().where_("age".to_string(), text(">="), Some(FilterValue::Integer(21))).unwrap();
    let c2 = c.where_("city".to_string(), text("Oslo"), None).unwrap();
    let before = c.all();
    let after = c2.all();
    assert_eq!(before.sql, "SELECT * FROM users WHERE age >= ?");
    assert_eq!(after.sql, format!("{} AND city = ?", before.sql));
    assert_eq!(after.params[..1], before.params[..]);
    assert_eq!(after.params[1], SqlValue::Text("Oslo".to_string()));
    // The earlier chain is untouched.
    assert_eq!(c.all(), before);
}

#[test]
fn where_drops_the_ordering() {
    let c = users().order_by("age".to_string(), Some("DESC".to_string()));
    let c2 = c.where_("age".to_string(), text("<"), Some(FilterValue::Integer(65))).unwrap();
    assert_eq!(c2.all().sql, "SELECT * FROM users WHERE 1 = ? AND age < ?");
}

#[test]
fn parameter_count_follows_operators() {
    let stmt = users()
        .where_("deleted_at".to_string(), text("IS NULL"), Some(text("")))
        .unwrap()
        .where_("role".to_string(), text("in"), Some(text("a, b ,c")))
        .unwrap()
        .where_("age".to_string(), text("!="), Some(FilterValue::Integer(3)))
        .unwrap()
        .where_("email".to_string(), text("is not null"), Some(FilterValue::Integer(0)))
        .unwrap()
        .all();
    assert_eq!(
        stmt.sql,
        "SELECT * FROM users WHERE deleted_at IS NULL AND role IN (?, ?, ?) AND age != ? AND email is not null"
    );
    assert_eq!(stmt.params.len(), 4);
    assert_eq!(
        stmt.params,
        vec![
            SqlValue::Text("a".to_string()),
            SqlValue::Text("b".to_string()),
            SqlValue::Text("c".to_string()),
            SqlValue::Integer(3),
        ]
    );
}

#[test]
fn null_test_binds_nothing() {
    let stmt = users().where_("x".to_string(), text("IS NULL"), Some(text("ignored"))).unwrap().destroy();
    assert_eq!(stmt.sql, "DELETE FROM users WHERE x IS NULL");
    assert!(stmt.params.is_empty());
}

#[test]
fn in_with_integer_binds_its_decimal_text() {
    let stmt = users().where_("id".to_string(), text("In"), Some(FilterValue::Integer(-42))).unwrap().all();
    assert_eq!(stmt.sql, "SELECT * FROM users WHERE id IN (?)");
    assert_eq!(stmt.params, vec![SqlValue::Text("-42".to_string())]);
}

#[test]
fn in_with_empty_items() {
    let stmt = users().where_("tag".to_string(), text("IN"), Some(text(",,"))).unwrap().all();
    assert_eq!(stmt.sql, "SELECT * FROM users WHERE tag IN (?, ?, ?)");
    assert_eq!(stmt.params, vec![
            SqlValue::Text(String::new()),
            SqlValue::Text(String::new()),
            SqlValue::Text(String::new()),
        ]);
}

#[test]
fn unknown_operator_renders_as_comparison() {
    let stmt = users().where_("name".to_string(), text("LIKE"), Some(text("a%"))).unwrap().all();
    assert_eq!(stmt.sql, "SELECT * FROM users WHERE name LIKE ?");
    assert_eq!(stmt.params, vec![SqlValue::Text("a%".to_string())]);
}

#[test]
fn where_two_argument_shape_means_equals() {
    let stmt = users().where_("name".to_string(), text("bob"), None).unwrap().all();
    assert_eq!(stmt.sql, "SELECT * FROM users WHERE name = ?");
    assert_eq!(stmt.params, vec![SqlValue::Text("bob".to_string())]);
    let stmt = users().where_("age".to_string(), FilterValue::Integer(30), None).unwrap().all();
    assert_eq!(stmt.params, vec![SqlValue::Integer(30)]);
}

#[test]
fn where_with_integer_operator_is_an_error() {
    let r = users().where_("age".to_string(), FilterValue::Integer(1), Some(FilterValue::Integer(2)));
    assert!(matches!(r, Err(QueryError::InvalidWhereArguments)));
    let chain = users().where_("a".to_string(), FilterValue::Integer(1), None).unwrap();
    let r = chain.where_("b".to_string(), FilterValue::Integer(1), Some(text("x")));
    assert!(matches!(r, Err(QueryError::InvalidWhereArguments)));
    assert_eq!(QueryError::InvalidWhereArguments.message(), "Invalid arguments for where");
}

#[test]
fn order_by_then_last_forces_descending() {
    let stmt = users().order_by("age".to_string(), Some("DESC".to_string())).last();
    assert_eq!(stmt.sql, "SELECT * FROM users WHERE 1 = ? ORDER BY age DESC");
    assert_eq!(stmt.params, vec![SqlValue::Integer(1)]);
    let stmt = users().order_by("age".to_string(), Some("DESC".to_string())).first();
    assert_eq!(stmt.sql, "SELECT * FROM users WHERE 1 = ? ORDER BY age ASC");
}

#[test]
fn chain_first_and_last_default_to_row_identity() {
    let c = users().where_("age".to_string(), text(">"), Some(FilterValue::Integer(1))).unwrap();
    assert_eq!(c.first().sql, "SELECT * FROM users WHERE age > ? ORDER BY rowid ASC");
    assert_eq!(c.last().sql, "SELECT * FROM users WHERE age > ? ORDER BY rowid DESC");
}

#[test]
fn order_by_does_not_change_the_chain() {
    let c = users().where_("a".to_string(), FilterValue::Integer(1), None).unwrap();
    let ordered = c.order_by("b".to_string(), Some("DESC".to_string()));
    assert_eq!(c.all().sql, "SELECT * FROM users WHERE a = ?");
    assert_eq!(ordered.get().sql, "SELECT * FROM users WHERE a = ? ORDER BY b DESC");
}

#[test]
fn table_shortcuts_compile() {
    let t = users();
    assert_eq!(t.all().sql, "SELECT * FROM users WHERE 1 = ?");
    assert_eq!(t.get(), t.all());
    assert_eq!(t.first().sql, "SELECT * FROM users WHERE 1 = ? ORDER BY id ASC");
    assert_eq!(t.last().sql, "SELECT * FROM users WHERE 1 = ? ORDER BY id DESC");
    let find = t.find(FilterValue::Integer(42));
    assert_eq!(find.sql, "SELECT * FROM users WHERE id = ? ORDER BY rowid ASC");
    assert_eq!(find.params, vec![SqlValue::Integer(42)]);
    let destroy = t.destroy(text("abc"));
    assert_eq!(destroy.sql, "DELETE FROM users WHERE id = ?");
    assert_eq!(destroy.params, vec![SqlValue::Text("abc".to_string())]);
    assert_eq!(t.name(), "users");
}

#[test]
fn destroy_is_the_same_statement_each_time() {
    let t = users();
    assert_eq!(t.destroy(FilterValue::Integer(7)), t.destroy(FilterValue::Integer(7)));
}

#[test]
fn update_binds_payload_then_conditions() {
    let payload = vec![
        field("name", DynamicValue::Text("x".to_string())),
        field("age", DynamicValue::Integer(5)),
        field("ratio", DynamicValue::Real(2.5f64.to_bits())),
        field("active", DynamicValue::Boolean(false)),
    ];
    let stmt = users().update(FilterValue::Integer(9), &payload).unwrap();
    assert_eq!(stmt.sql, "UPDATE users SET name = ?, age = ?, ratio = ?, active = ? WHERE id = ?");
    assert_eq!(
        stmt.params,
        vec![
            SqlValue::Text("x".to_string()),
            SqlValue::Integer(5),
            SqlValue::Real(2.5f64.to_bits()),
            SqlValue::Integer(0),
            SqlValue::Integer(9),
        ]
    );
    let chain = users()
        .where_("age".to_string(), text(">"), Some(FilterValue::Integer(1)))
        .unwrap()
        .where_("tag".to_string(), text("IN"), Some(text("p,q")))
        .unwrap();
    let stmt = chain.update(&vec![field("seen", DynamicValue::Boolean(true))]).unwrap();
    assert_eq!(stmt.sql, "UPDATE users SET seen = ? WHERE age > ? AND tag IN (?, ?)");
    assert_eq!(
        stmt.params,
        vec![
            SqlValue::Integer(1),
            SqlValue::Integer(1),
            SqlValue::Text("p".to_string()),
            SqlValue::Text("q".to_string()),
        ]
    );
}

#[test]
fn update_rejects_unsupported_values() {
    for bad in [DynamicValue::Null, DynamicValue::Undefined, DynamicValue::Object("{}".to_string()), DynamicValue::Unsupported] {
        let payload = vec![field("name", DynamicValue::Text("x".to_string())), field("b", bad)];
        assert_eq!(users().update(FilterValue::Integer(1), &payload), Err(QueryError::UnsupportedUpdateValue));
    }
}

#[test]
fn insert_compiles_one_statement_per_payload() {
    let rows = vec![
        vec![
            field("name", DynamicValue::Text("a".to_string())),
            field("gone", DynamicValue::Null),
            field("count", DynamicValue::Integer(3)),
            field("meta", DynamicValue::Object("{\"k\":1}".to_string())),
        ],
        vec![],
        vec![field("only", DynamicValue::Undefined)],
        vec![field("flag", DynamicValue::Boolean(true))],
    ];
    let stmts = users().insert(&rows).unwrap();
    assert_eq!(
        stmts,
        vec![
            Statement {
                sql: "INSERT INTO users (name, count, meta) VALUES (?, ?, ?)".to_string(),
                params: vec![
                    SqlValue::Text("a".to_string()),
                    SqlValue::Integer(3),
                    SqlValue::Text("{\"k\":1}".to_string()),
                ],
            },
            Statement {
                sql: "INSERT INTO users (flag) VALUES (?)".to_string(),
                params: vec![SqlValue::Integer(1)],
            },
        ]
    );
    assert_eq!(users().create(&rows), users().insert(&rows));
}

#[test]
fn insert_with_unsupported_value_yields_nothing() {
    let rows = vec![
        vec![field("a", DynamicValue::Integer(1))],
        vec![field("a", DynamicValue::Integer(2))],
        vec![field("bad", DynamicValue::Unsupported)],
    ];
    assert_eq!(users().insert(&rows), Err(QueryError::UnsupportedInsertValue));
    assert_eq!(QueryError::UnsupportedInsertValue.message(), "Unsupported value type in insert");
}

#[test]
fn coercion_of_dynamic_values() {
    assert_eq!(coerce_in(&DynamicValue::Undefined), SqlValue::Null);
    assert_eq!(coerce_in(&DynamicValue::Null), SqlValue::Null);
    assert_eq!(coerce_in(&DynamicValue::Boolean(true)), SqlValue::Integer(1));
    assert_eq!(coerce_in(&DynamicValue::Boolean(false)), SqlValue::Integer(0));
    assert_eq!(coerce_in(&DynamicValue::Integer(-3)), SqlValue::Integer(-3));
    assert_eq!(coerce_in(&DynamicValue::Real(1.5f64.to_bits())), SqlValue::Real(1.5f64.to_bits()));
    assert_eq!(coerce_in(&DynamicValue::Text("t".to_string())), SqlValue::Text("t".to_string()));
    assert_eq!(coerce_in(&DynamicValue::Object("[1]".to_string())), SqlValue::Text("[1]".to_string()));
    assert_eq!(coerce_in(&DynamicValue::Unsupported), SqlValue::Null);
    assert_eq!(update_value(&DynamicValue::Boolean(true)), Ok(SqlValue::Integer(1)));
    assert_eq!(update_value(&DynamicValue::Null), Err(QueryError::UnsupportedUpdateValue));
    assert_eq!(QueryError::UnsupportedUpdateValue.message(), "Unsupported value type in update");
}

#[test]
fn operators_compare_without_case() {
    assert_eq!(operator_kind("in"), OperatorKind::Membership);
    assert_eq!(operator_kind("Is Not Null"), OperatorKind::NullTest);
    assert_eq!(operator_kind("is null"), OperatorKind::NullTest);
    assert_eq!(operator_kind("<="), OperatorKind::Comparison);
    assert_eq!(operator_kind("IS  NULL"), OperatorKind::Comparison);
}

#[test]
fn trim_removes_unicode_whitespace() {
    assert_eq!(trim("  a b \t\n"), "a b");
    assert_eq!(trim("\u{3000}x\u{a0}"), "x");
    assert_eq!(trim(" \u{2003} "), "");
    assert_eq!(trim(""), "");
}

#[test]
fn in_with_smallest_integer() {
    let stmt = users().where_("id".to_string(), text("IN"), Some(FilterValue::Integer(i64::MIN))).unwrap().all();
    assert_eq!(stmt.params, vec![SqlValue::Text("-9223372036854775808".to_string())]);
}

#[test]
fn render_kind_follows_the_given_kind() {
    let c = Condition::new("name".to_string(), "in".to_string(), text(" ann ,bob"));
    let mut sql = String::from("x: ");
    let mut params = Vec::new();
    c.render_kind(OperatorKind::Membership, &mut sql, &mut params);
    assert_eq!(sql, "x: name IN (?, ?)");
    assert_eq!(params, vec![SqlValue::Text("ann".to_string()), SqlValue::Text("bob".to_string())]);
    let mut sql = String::new();
    let mut params = Vec::new();
    c.render_kind(OperatorKind::Comparison, &mut sql, &mut params);
    assert_eq!(sql, "name in ?");
    assert_eq!(params, vec![SqlValue::Text(" ann ,bob".to_string())]);
    let mut sql = String::new();
    let mut params = Vec::new();
    c.render_kind(OperatorKind::NullTest, &mut sql, &mut params);
    assert_eq!(sql, "name in");
    assert!(params.is_empty());
}

#[test]
fn build_conditions_appends_clause_and_parameters() {
    let chain = users()
        .where_("a".to_string(), text("IS NULL"), Some(text("")))
        .unwrap()
        .where_("b".to_string(), text("IN"), Some(text("1,2,3")))
        .unwrap();
    let mut sql = String::from("W: ");
    let mut params = vec![SqlValue::Null];
    chain.build_conditions(&mut sql, &mut params);
    assert_eq!(sql, "W: a IS NULL AND b IN (?, ?, ?)");
    assert_eq!(params.len(), 1 + 0 + 3);
}

#[test]
fn decimal_writes_integers() {
    assert_eq!(decimal(0), "0");
    assert_eq!(decimal(7), "7");
    assert_eq!(decimal(1200), "1200");
    assert_eq!(decimal(-5), "-5");
    assert_eq!(decimal(i64::MAX), "9223372036854775807");
    assert_eq!(decimal(i64::MIN), "-9223372036854775808");
}
