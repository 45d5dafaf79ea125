use koron::aggregation::{Aggregation, KoronFunction};
use koron::comparison::CompareOp;
use koron::error::ParseError;
use koron::filter::{Filter, FilterExtractor};
use koron::query_metadata::{FromClauseIdentifier, QueryMetadata};
use koron::support::{case_fold_identifier, extract_qualified_column, remove_outer_parens, render_ident};
use koron::syntax::{
    BinaryOperator, Expr, ExprKind, Function, FunctionArg, FunctionArgExpr, GroupByExpr, Ident, Query,
    QuoteStyle, Select, SelectItem, SetExpr, Statement, TableAlias, TableFactor, TableWithJoins,
    UnaryOperator, Value,
};
use koron::table::TabIdent;

fn bare(value: &str) -> Ident {
    Ident { value: value.to_string(), quote_style: None }
}

fn quoted(value: &str) -> Ident {
    Ident { value: value.to_string(), quote_style: Some(QuoteStyle::Double) }
}

fn expr(kind: ExprKind, text: &str) -> Expr {
    Expr { kind, text: text.to_string() }
}

fn column(name: &str) -> Expr {
    expr(ExprKind::Identifier(bare(name)), name)
}

fn nested(inner: Expr) -> Expr {
    let text = format!("({})", inner.text);
    expr(ExprKind::Nested(Box::new(inner)), &text)
}

fn number(n: &str) -> Expr {
    expr(ExprKind::Value(Value::Number(n.to_string())), n)
}

fn binary(left: Expr, op: BinaryOperator, right: Expr, text: &str) -> Expr {
    expr(ExprKind::BinaryOp { left: Box::new(left), op, right: Box::new(right) }, text)
}

fn call(name: Ident, arg: Expr, text: &str) -> Expr {
    let f = Function {
        name: vec![name],
        args: vec![FunctionArg::Unnamed(FunctionArgExpr::Expr(arg))],
        filter: None,
        null_treatment: None,
        over: None,
        distinct: false,
        order_by: vec![],
    };
    expr(ExprKind::Function(f), text)
}

fn table_entry(name: Vec<Ident>, alias: Option<Ident>, text: &str) -> Vec<TableWithJoins> {
    vec![TableWithJoins {
        relation: TableFactor::Table {
            name,
            alias: alias.map(|name| TableAlias { name, columns: vec![] }),
            args: None,
            with_hints: vec![],
            version: None,
            partitions: vec![],
        },
        joins: vec![],
        text: text.to_string(),
    }]
}

fn select(item: Expr, from: Vec<TableWithJoins>, selection: Option<Expr>) -> Select {
    Select {
        distinct: None,
        top: None,
        projection: vec![SelectItem::UnnamedExpr(item)],
        into: None,
        from,
        lateral_views: vec![],
        selection,
        group_by: GroupByExpr::Expressions(vec![]),
        cluster_by: vec![],
        distribute_by: vec![],
        sort_by: vec![],
        having: None,
        named_window: vec![],
        qualify: None,
    }
}

fn query(body: SetExpr) -> Query {
    Query {
        with: None,
        body: Box::new(body),
        order_by: vec![],
        limit: None,
        limit_by: vec![],
        offset: None,
        fetch: None,
        locks: vec![],
        for_clause: None,
    }
}

fn statements(s: Select) -> Vec<Statement> {
    vec![Statement::Query(Box::new(query(SetExpr::Select(Box::new(s)))))]
}

/// `SELECT <item> FROM t [WHERE <selection>]`
fn on_t(item: Expr, selection: Option<Expr>) -> Vec<Statement> {
    statements(select(item, table_entry(vec![bare("t")], None, "t"), selection))
}

fn sum_c() -> Expr {
    call(bare("SUM"), column("c"), "SUM(c)")
}

fn unsupported(message: &str) -> ParseError {
    ParseError::Unsupported { message: message.to_string() }
}

#[test]
fn example_sum_over_three_part_table() {
    // SELECT SUM(c) FROM d.s.t
    let stmts = statements(select(sum_c(), table_entry(vec![bare("d"), bare("s"), bare("t")], None, "d.s.t"), None));
    let expected = QueryMetadata {
        aggregation: Aggregation { function: KoronFunction::Sum, column: "c".to_string(), alias: None },
        table: TabIdent { db: Some("d".to_string()), schema: Some("s".to_string()), table: "t".to_string() },
        filter: None,
        data_extraction_query: "SELECT c FROM d.s.t".to_string(),
        data_aggregation_query: Some("SELECT CAST(SUM(c) AS TEXT) FROM d.s.t".to_string()),
    };
    assert_eq!(QueryMetadata::parse(&stmts, None), Ok(expected));
}

#[test]
fn example_median_with_is_not_null() {
    // SELECT MEDIAN(c) FROM t WHERE c IS NOT NULL
    let selection = expr(ExprKind::IsNotNull(Box::new(column("c"))), "c IS NOT NULL");
    let result = QueryMetadata::parse(&on_t(call(bare("MEDIAN"), column("c"), "MEDIAN(c)"), Some(selection)), None)
        .unwrap();
    assert_eq!(result.data_aggregation_query, None);
    assert_eq!(result.data_extraction_query, "SELECT c FROM t");
    assert_eq!(result.filter, Some(Filter { column: "c".to_string(), comparison: CompareOp::IsNotNull }));
    assert_eq!(result.aggregation.function, KoronFunction::Median);
}

#[test]
fn example_constant_on_the_left_is_mirrored() {
    // SELECT SUM(c) FROM t WHERE 1 < c
    let selection = binary(number("1"), BinaryOperator::Lt, column("c"), "1 < c");
    let result = QueryMetadata::parse(&on_t(sum_c(), Some(selection)), None).unwrap();
    assert_eq!(result.filter, Some(Filter { column: "c".to_string(), comparison: CompareOp::Gt { value: "1".to_string() } }));
    assert_eq!(result.data_aggregation_query, Some("SELECT CAST(SUM(c) AS TEXT) FROM t WHERE 1 < c".to_string()));
}

#[test]
fn example_wildcard_is_rejected() {
    // SELECT * FROM t
    let mut s = select(sum_c(), table_entry(vec![bare("t")], None, "t"), None);
    s.projection = vec![SelectItem::Wildcard];
    assert_eq!(
        QueryMetadata::parse(&statements(s), None),
        Err(unsupported(
            "the SELECT clause must contain exactly one aggregation / analytic function. Nothing else is accepted."
        ))
    );
}

#[test]
fn example_two_tables_are_rejected() {
    // SELECT SUM(c) FROM t1, t2
    let mut from = table_entry(vec![bare("t1")], None, "t1");
    from.extend(table_entry(vec![bare("t2")], None, "t2"));
    assert_eq!(
        QueryMetadata::parse(&statements(select(sum_c(), from, None)), None),
        Err(unsupported("the FROM clause has multiple tables (no JOINs, subqueries or functions allowed)."))
    );
}

#[test]
fn function_names_in_any_case_when_unquoted() {
    let cases = [
        ("sUm", KoronFunction::Sum),
        ("Count", KoronFunction::Count),
        ("aVG", KoronFunction::Average),
        ("MeDiAn", KoronFunction::Median),
        ("VARiance", KoronFunction::Variance),
        ("StdDev", KoronFunction::StandardDeviation),
    ];
    for (name, function) in cases {
        let text = format!("{name}(c)");
        let result = QueryMetadata::parse(&on_t(call(bare(name), column("c"), &text), None), None).unwrap();
        assert_eq!(result.aggregation.function, function, "failed for {name}");
    }
}

#[test]
fn quoted_function_names_keep_their_case() {
    for name in ["Sum", "COUNT", "Avg", "MEDIAN", "Variance", "STDDEV"] {
        let text = format!("\"{name}\"(c)");
        let result = QueryMetadata::parse(&on_t(call(quoted(name), column("c"), &text), None), None);
        assert_eq!(result, Err(unsupported(&format!("unrecognized or unsupported function: \"{name}\"."))));
    }
    let result = QueryMetadata::parse(&on_t(call(quoted("sum"), column("c"), "\"sum\"(c)"), None), None);
    assert_eq!(result.unwrap().aggregation.function, KoronFunction::Sum);
}

#[test]
fn parentheses_change_nothing_extracted() {
    let plain = QueryMetadata::parse(&on_t(sum_c(), None), None).unwrap();
    let wrapped_call = QueryMetadata::parse(&on_t(nested(nested(sum_c())), None), None).unwrap();
    let wrapped_arg = QueryMetadata::parse(&on_t(call(bare("SUM"), nested(column("c")), "SUM((c))"), None), None).unwrap();
    for other in [&wrapped_call, &wrapped_arg] {
        assert_eq!(other.aggregation, plain.aggregation);
        assert_eq!(other.table, plain.table);
        assert_eq!(other.filter, plain.filter);
        assert_eq!(other.data_extraction_query, plain.data_extraction_query);
    }
    assert_eq!(wrapped_call.data_aggregation_query, Some("SELECT CAST(((SUM(c))) AS TEXT) FROM t".to_string()));

    let selection = binary(column("c"), BinaryOperator::Gt, number("3"), "c > 3");
    let plain = QueryMetadata::parse(&on_t(sum_c(), Some(selection)), None).unwrap();
    let selection = nested(nested(binary(column("c"), BinaryOperator::Gt, number("3"), "c > 3")));
    let wrapped = QueryMetadata::parse(&on_t(sum_c(), Some(selection)), None).unwrap();
    assert_eq!(plain.filter, wrapped.filter);
    assert_eq!(plain.data_extraction_query, wrapped.data_extraction_query);

    let inner = query(SetExpr::Select(Box::new(select(sum_c(), table_entry(vec![bare("t")], None, "t"), None))));
    let twice = vec![Statement::Query(Box::new(query(SetExpr::Query(Box::new(query(SetExpr::Query(Box::new(inner))))))))];
    assert_eq!(QueryMetadata::parse(&twice, None).unwrap(), QueryMetadata::parse(&on_t(sum_c(), None), None).unwrap());
}

#[test]
fn stripping_parentheses_is_idempotent() {
    let e = nested(nested(column("c")));
    let once = remove_outer_parens(&e);
    assert_eq!(once, &column("c"));
    assert_eq!(remove_outer_parens(once), once);
}

#[test]
fn mirrored_comparisons_give_the_same_filter() {
    let cases = [
        (BinaryOperator::Lt, BinaryOperator::Gt, "<", ">"),
        (BinaryOperator::LtEq, BinaryOperator::GtEq, "<=", ">="),
        (BinaryOperator::Gt, BinaryOperator::Lt, ">", "<"),
        (BinaryOperator::GtEq, BinaryOperator::LtEq, ">=", "<="),
        (BinaryOperator::Eq, BinaryOperator::Eq, "=", "="),
        (BinaryOperator::NotEq, BinaryOperator::NotEq, "<>", "<>"),
    ];
    let t = TabIdent { db: None, schema: None, table: "t".to_string() };
    let extractor = FilterExtractor::new(FromClauseIdentifier::Base(&t));
    for (op, mirror, op_text, mirror_text) in cases {
        let swapped = binary(number("7"), op, column("c"), &format!("7 {op_text} c"));
        let straight = binary(column("c"), mirror, number("7"), &format!("c {mirror_text} 7"));
        assert_eq!(extractor.extract(&swapped), extractor.extract(&straight), "failed for {op_text}");
    }
}

#[test]
fn extraction_query_adds_the_filter_column_only_when_distinct() {
    let same = binary(column("c"), BinaryOperator::Eq, number("1"), "c = 1");
    let result = QueryMetadata::parse(&on_t(sum_c(), Some(same)), None).unwrap();
    assert_eq!(result.data_extraction_query, "SELECT c FROM t");
    let other = binary(column("d"), BinaryOperator::Eq, number("1"), "d = 1");
    let result = QueryMetadata::parse(&on_t(sum_c(), Some(other)), None).unwrap();
    assert_eq!(result.data_extraction_query, "SELECT c, d FROM t");
    let folded_same = binary(column("C"), BinaryOperator::Eq, number("1"), "C = 1");
    let result = QueryMetadata::parse(&on_t(sum_c(), Some(folded_same)), None).unwrap();
    assert_eq!(result.data_extraction_query, "SELECT c FROM t");
}

#[test]
fn data_extraction_query_with_quotes() {
    let aggregation = Aggregation { function: KoronFunction::Sum, column: "c".to_string(), alias: None };
    let table = TabIdent { db: Some("d".to_string()), schema: Some("s".to_string()), table: "t".to_string() };
    let filter = Some(Filter { column: "f".to_string(), comparison: CompareOp::IsNull });
    assert_eq!(
        QueryMetadata::create_data_extraction_query(&aggregation, &table, &filter, Some('"')),
        "SELECT \"c\", \"f\" FROM \"d\".\"s\".\"t\""
    );
    assert_eq!(
        QueryMetadata::create_data_extraction_query(&aggregation, &table, &None, Some('`')),
        "SELECT `c` FROM `d`.`s`.`t`"
    );
    assert_eq!(
        QueryMetadata::create_data_extraction_query(&aggregation, &table, &None, Some('[')),
        "SELECT [c] FROM [d].[s].[t]"
    );
    let odd = Aggregation { function: KoronFunction::Sum, column: "a\"b".to_string(), alias: None };
    let short = TabIdent { db: None, schema: None, table: "t".to_string() };
    assert_eq!(
        QueryMetadata::create_data_extraction_query(&odd, &short, &None, Some('"')),
        "SELECT \"a\"\"b\" FROM \"t\""
    );
}

#[test]
fn parse_with_quote_style() {
    let result = QueryMetadata::parse(&on_t(sum_c(), None), Some('`')).unwrap();
    assert_eq!(result.data_extraction_query, "SELECT `c` FROM `t`");
    assert_eq!(result.data_aggregation_query, Some("SELECT CAST(SUM(c) AS TEXT) FROM t".to_string()));
}

fn qualified(parts: Vec<Ident>, text: &str) -> Expr {
    expr(ExprKind::CompoundIdentifier(parts), text)
}

#[test]
fn qualified_columns_against_the_table() {
    let t = TabIdent { db: Some("d".to_string()), schema: Some("s".to_string()), table: "t".to_string() };
    let from = FromClauseIdentifier::Base(&t);
    let resolve = |parts: Vec<Ident>, text: &str| extract_qualified_column(from, &qualified(parts.clone(), text), &parts);
    assert_eq!(resolve(vec![bare("D"), bare("s"), bare("t"), bare("C")], "D.s.t.C"), Ok("c".to_string()));
    assert_eq!(resolve(vec![bare("s"), bare("t"), bare("c")], "s.t.c"), Ok("c".to_string()));
    assert_eq!(resolve(vec![bare("t"), bare("c")], "t.c"), Ok("c".to_string()));
    let unknown = |text: &str| {
        Err(ParseError::MalformedQuery {
            message: format!("the {text} column is not part of the table that's listed in the FROM clause (d.s.t)."),
        })
    };
    assert_eq!(resolve(vec![bare("x"), bare("s"), bare("t"), bare("c")], "x.s.t.c"), unknown("x.s.t.c"));
    assert_eq!(resolve(vec![bare("x"), bare("t"), bare("c")], "x.t.c"), unknown("x.t.c"));
    assert_eq!(resolve(vec![bare("u"), bare("c")], "u.c"), unknown("u.c"));
    assert_eq!(
        resolve(vec![bare("y"), bare("d"), bare("s"), bare("t"), bare("c")], "y.d.s.t.c"),
        Err(ParseError::Internal { message: "found too many ident in column name (i.e., y.d.s.t.c).".to_string() })
    );
    assert_eq!(
        resolve(vec![], ""),
        Err(ParseError::Internal {
            message: "found empty column name (CompoundIdentifier) in query AST.".to_string()
        })
    );

    // A part that the table's name lacks matches anything.
    let short = TabIdent { db: None, schema: None, table: "t".to_string() };
    let from = FromClauseIdentifier::Base(&short);
    let parts = vec![bare("anything"), bare("t"), bare("c")];
    assert_eq!(extract_qualified_column(from, &qualified(parts.clone(), "anything.t.c"), &parts), Ok("c".to_string()));
}

#[test]
fn qualified_columns_against_an_alias() {
    let alias = "a".to_string();
    let from = FromClauseIdentifier::Alias { alias: &alias };
    let resolve = |parts: Vec<Ident>, text: &str| extract_qualified_column(from, &qualified(parts.clone(), text), &parts);
    assert_eq!(resolve(vec![bare("A"), bare("c")], "A.c"), Ok("c".to_string()));
    assert_eq!(
        resolve(vec![bare("s"), bare("a"), bare("c")], "s.a.c"),
        Err(ParseError::MalformedQuery {
            message: "the s.a.c column is not part of the table that's listed in the FROM clause (a).".to_string()
        })
    );
    assert_eq!(
        resolve(vec![bare("t"), bare("c")], "t.c"),
        Err(ParseError::MalformedQuery {
            message: "the t.c column is not part of the table that's listed in the FROM clause (a).".to_string()
        })
    );
}

#[test]
fn aliased_table_in_full_statement() {
    let from = table_entry(vec![bare("d"), bare("s"), bare("t")], Some(bare("A")), "d.s.t AS A");
    let item = call(bare("SUM"), qualified(vec![bare("a"), bare("c")], "a.c"), "SUM(a.c)");
    let result = QueryMetadata::parse(&statements(select(item, from, None)), None).unwrap();
    assert_eq!(result.aggregation.column, "c");
    assert_eq!(result.data_extraction_query, "SELECT c FROM d.s.t");
    assert_eq!(result.data_aggregation_query, Some("SELECT CAST(SUM(a.c) AS TEXT) FROM d.s.t AS A".to_string()));
}

#[test]
fn identifiers_fold_unless_quoted() {
    assert_eq!(case_fold_identifier(&bare("MiXeD_Case9")), "mixed_case9");
    assert_eq!(case_fold_identifier(&quoted("MiXeD")), "MiXeD");
    assert_eq!(case_fold_identifier(&bare("ÄB")), "Äb");
}

#[test]
fn identifiers_render_with_their_quotes() {
    assert_eq!(render_ident(&bare("Name")), "Name");
    assert_eq!(render_ident(&quoted("Na\"me")), "\"Na\"\"me\"");
    assert_eq!(render_ident(&Ident { value: "x".to_string(), quote_style: Some(QuoteStyle::Bracket) }), "[x]");
    assert_eq!(render_ident(&Ident { value: "x".to_string(), quote_style: Some(QuoteStyle::Backtick) }), "`x`");
}

#[test]
fn constants_reduce_to_their_text() {
    let cases = [
        (expr(ExprKind::UnaryOp { op: UnaryOperator::Minus, expr: Box::new(number("2.5")) }, "-2.5"), Ok("-2.5")),
        (expr(ExprKind::UnaryOp { op: UnaryOperator::Plus, expr: Box::new(number("4")) }, "+4"), Ok("4")),
        (expr(ExprKind::Value(Value::Text("it's".to_string())), "'it''s'"), Ok("it's")),
        (expr(ExprKind::Value(Value::Boolean(false)), "false"), Ok("false")),
        (expr(ExprKind::Value(Value::Null), "NULL"), Ok("Null")),
        (expr(ExprKind::Value(Value::Placeholder("$1".to_string())), "$1"), Err("Expected a value, got $1")),
        (expr(ExprKind::Other, "c + 1"), Err("Expected a value, got c + 1")),
        (
            expr(ExprKind::UnaryOp { op: UnaryOperator::Other("NOT".to_string()), expr: Box::new(number("1")) }, "NOT 1"),
            Err("Expected a value, got NOT 1"),
        ),
        (
            expr(ExprKind::UnaryOp { op: UnaryOperator::Minus, expr: Box::new(column("c")) }, "-c"),
            Err("Expected a value, got -c"),
        ),
    ];
    for (e, expected) in cases {
        let expected = expected.map(|v| v.to_string()).map_err(unsupported);
        assert_eq!(FilterExtractor::extract_constant_value(&e), expected, "failed for {}", e.text);
    }
}

#[test]
fn where_clause_rejections() {
    let t = TabIdent { db: None, schema: None, table: "t".to_string() };
    let extractor = FilterExtractor::new(FromClauseIdentifier::Base(&t));
    let and = binary(
        binary(column("c"), BinaryOperator::Gt, number("1"), "c > 1"),
        BinaryOperator::Other("AND".to_string()),
        binary(column("c"), BinaryOperator::Lt, number("5"), "c < 5"),
        "c > 1 AND c < 5",
    );
    assert_eq!(extractor.extract(&and), Err(unsupported("the AND operator.")));
    let on_constant = expr(ExprKind::IsNull(Box::new(number("1"))), "1 IS NULL");
    assert_eq!(extractor.extract(&on_constant), Err(unsupported("1 IS NULL. Column must be specified.")));
    let wrong_table = expr(
        ExprKind::IsTrue(Box::new(qualified(vec![bare("u"), bare("c")], "u.c"))),
        "u.c IS TRUE",
    );
    assert_eq!(
        extractor.extract(&wrong_table),
        Err(ParseError::MalformedQuery {
            message: "the u.c column is not part of the table that's listed in the FROM clause (t).".to_string()
        })
    );
}

#[test]
fn statement_level_rejections() {
    let mut s = select(sum_c(), table_entry(vec![bare("t")], None, "t"), None);
    s.group_by = GroupByExpr::All;
    assert_eq!(QueryMetadata::parse(&statements(s), None), Err(unsupported("ALL.")));
    let mut s = select(sum_c(), table_entry(vec![bare("t")], None, "t"), None);
    s.qualify = Some("x > 1".to_string());
    assert_eq!(QueryMetadata::parse(&statements(s), None), Err(unsupported("QUALIFY.")));
    let mut s = select(sum_c(), table_entry(vec![bare("t")], None, "t"), None);
    s.named_window = vec!["w AS (PARTITION BY c)".to_string()];
    assert_eq!(
        QueryMetadata::parse(&statements(s), None),
        Err(unsupported("AS (OVER (PARTITION BY .. ORDER BY .. etc.))."))
    );
    let mut q = query(SetExpr::Select(Box::new(select(sum_c(), table_entry(vec![bare("t")], None, "t"), None))));
    q.limit_by = vec!["1".to_string(), "c".to_string()];
    assert_eq!(
        QueryMetadata::parse(&vec![Statement::Query(Box::new(q))], None),
        Err(unsupported("limit by clauses (i.e., 1, c)."))
    );
    assert_eq!(
        QueryMetadata::parse(&vec![Statement::Query(Box::new(query(SetExpr::Table)))], None),
        Err(unsupported("TABLE (i.e., SELECT * FROM table_name)."))
    );
    assert_eq!(QueryMetadata::parse(&vec![], None), Err(unsupported("statements different from single SELECT statement.")));
}

#[test]
fn call_modifiers_are_rejected() {
    let modified = |change: fn(&mut Function)| {
        let mut e = sum_c();
        if let ExprKind::Function(f) = &mut e.kind {
            change(f);
        }
        QueryMetadata::parse(&on_t(e, None), None)
    };
    assert_eq!(modified(|f| f.order_by = vec!["c".to_string()]), Err(unsupported("ORDER BY.")));
    assert_eq!(modified(|f| f.filter = Some("c > 1".to_string())), Err(unsupported("FILTER.")));
    assert_eq!(modified(|f| f.null_treatment = Some("IGNORE NULLS".to_string())), Err(unsupported("IGNORE NULLS.")));
}

#[test]
fn from_clause_rejections() {
    let mut from = table_entry(vec![bare("t")], None, "t");
    if let TableFactor::Table { version, .. } = &mut from[0].relation {
        *version = Some(" FOR SYSTEM_TIME AS OF '2020-01-01'".to_string());
    }
    assert_eq!(QueryMetadata::parse(&statements(select(sum_c(), from, None)), None), Err(unsupported("version qualifier.")));
    let mut from = table_entry(vec![bare("t")], None, "t");
    if let TableFactor::Table { partitions, .. } = &mut from[0].relation {
        *partitions = vec![bare("p0")];
    }
    assert_eq!(QueryMetadata::parse(&statements(select(sum_c(), from, None)), None), Err(unsupported("table partitions.")));
    let from = vec![TableWithJoins {
        relation: TableFactor::Table {
            name: vec![bare("t")],
            alias: Some(TableAlias { name: quoted("D"), columns: vec![bare("f"), quoted("G")] }),
            args: None,
            with_hints: vec![],
            version: None,
            partitions: vec![],
        },
        joins: vec![],
        text: "t AS \"D\" (f, \"G\")".to_string(),
    }];
    assert_eq!(
        QueryMetadata::parse(&statements(select(sum_c(), from, None)), None),
        Err(unsupported("table aliases with columns (such as \"D\" (f, \"G\"))."))
    );
    let empty_name = table_entry(vec![], None, "");
    assert_eq!(
        QueryMetadata::parse(&statements(select(sum_c(), empty_name, None)), None),
        Err(ParseError::Internal { message: "found empty table name (ObjectName) in query AST.".to_string() })
    );
}

#[test]
fn argument_count_in_message() {
    let f = Function {
        name: vec![bare("Count")],
        args: (0..12).map(|_| FunctionArg::Unnamed(FunctionArgExpr::Expr(column("c")))).collect(),
        filter: None,
        null_treatment: None,
        over: None,
        distinct: false,
        order_by: vec![],
    };
    let result = QueryMetadata::parse(&on_t(expr(ExprKind::Function(f), "Count(c, ...)"), None), None);
    assert_eq!(
        result,
        Err(ParseError::MalformedQuery {
            message: "the Count function takes exactly 1 argument, but 12 are provided.".to_string()
        })
    );
}
