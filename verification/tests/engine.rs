use query_rs::convert::OrderType;
use query_rs::convert::Sql;
use query_rs::expr::AggregateFunction;
use query_rs::expr::Expression;
use query_rs::expr::Operator;
use query_rs::loader::FormatType;
use query_rs::answer;
use query_rs::query;
use query_rs::show_columns;
use query_rs::dataset::serialized;
use query_rs::loader::detect_content;
use query_rs::query::answered;
use query_rs::query::render;
use query_rs::ColumnType;
use query_rs::CustomError;
use polars::prelude::DataType;

const CSV: &str = "k,v,w\na,1,1.5\nb,2,2.5\na,3,3.5\nc,4,4.5\nb,5,5.5\na,6,6.5\n";

fn column(name: &str) -> Expression {
    Expression::Column(name.to_string())
}

fn plain<'a>(selection: Vec<Expression>) -> Sql<'a> {
    Sql {
        selection,
        condition: None,
        source: "file:///tmp/t.csv",
        order_by: vec![],
        offset: None,
        limit: None,
        group_by: vec![],
        aggregation: vec![],
    }
}

#[test]
fn select_without_clauses_keeps_every_row() {
    let table = query(plain(vec![column("k"), column("v")]), FormatType::Csv, CSV.to_string())
        .unwrap();
    assert_eq!(table.height(), 6);
    assert_eq!(table.width(), 2);
}

#[test]
fn select_sorts_and_slices() {
    let mut sql = plain(vec![column("v")]);
    sql.order_by = vec![("v".to_string(), OrderType::Desc)];
    sql.offset = Some(1);
    sql.limit = Some(2);
    let mut table = query(sql, FormatType::Csv, CSV.to_string()).unwrap();
    assert_eq!(table.height(), 2);
    assert_eq!(table.to_csv().unwrap(), "v\n5\n4\n");
}

#[test]
fn group_by_counts_rows_per_key() {
    let mut sql = plain(vec![column("n"), column("k")]);
    sql.group_by = vec!["k".to_string()];
    sql.condition = Some(Expression::BinaryOp {
        left: Box::new(column("v")),
        operator: Operator::Gt,
        right: Box::new(Expression::Literal("1".to_string())),
    });
    sql.aggregation = vec![Expression::Alias {
        expr: Box::new(Expression::Aggregate {
            function: AggregateFunction::Count,
            expr: Box::new(Expression::Wildcard),
        }),
        name: "n".to_string(),
    }];
    let mut table = query(sql, FormatType::Csv, CSV.to_string()).unwrap();
    assert_eq!(table.height(), 3);
    assert_eq!(table.width(), 2);
    let text = table.to_csv().unwrap();
    let mut lines: Vec<&str> = text.lines().collect();
    assert_eq!(lines.remove(0), "n,k");
    lines.sort();
    assert_eq!(lines, vec!["1,c", "2,a", "2,b"]);
}

#[test]
fn unknown_column_is_an_engine_error() {
    let result = query(plain(vec![column("nope")]), FormatType::Csv, CSV.to_string());
    assert!(matches!(result, Err(CustomError::PolarsError { .. })));
}

#[test]
fn columns_are_listed_in_order() {
    let list = show_columns(FormatType::Csv, CSV.to_string()).unwrap();
    let names: Vec<&str> = list.iter().map(|c| c.0.as_str()).collect();
    assert_eq!(names, vec!["k", "v", "w"]);
    let types: Vec<String> = list.iter().map(|c| c.1.name()).collect();
    assert_eq!(types, vec!["str", "i64", "f64"]);
}

fn binary(left: Expression, operator: Operator, right: Expression) -> Expression {
    Expression::BinaryOp { left: Box::new(left), operator, right: Box::new(right) }
}

fn literal(numeral: &str) -> Expression {
    Expression::Literal(numeral.to_string())
}

fn named(expr: Expression, name: &str) -> Expression {
    Expression::Alias { expr: Box::new(expr), name: name.to_string() }
}

fn computed(expr: Expression) -> String {
    let sql = plain(vec![named(expr, "r")]);
    query(sql, FormatType::Csv, "v,w\n7,2\n".to_string()).unwrap().to_csv().unwrap()
}

#[test]
fn arithmetic_is_done_by_the_engine() {
    let op = |operator: Operator| computed(binary(column("v"), operator, column("w")));
    assert_eq!(op(Operator::Plus), "r\n9\n");
    assert_eq!(op(Operator::Minus), "r\n5\n");
    assert_eq!(op(Operator::Multiply), "r\n14\n");
    assert_eq!(op(Operator::Divide), "r\n3\n");
    assert_eq!(op(Operator::Modulus), "r\n1\n");
}

#[test]
fn comparisons_are_done_by_the_engine() {
    let op = |operator: Operator| computed(binary(column("v"), operator, column("w")));
    assert_eq!(op(Operator::Eq), "r\nfalse\n");
    assert_eq!(op(Operator::NotEq), "r\ntrue\n");
    assert_eq!(op(Operator::Gt), "r\ntrue\n");
    assert_eq!(op(Operator::GtEq), "r\ntrue\n");
    assert_eq!(op(Operator::Lt), "r\nfalse\n");
    assert_eq!(op(Operator::LtEq), "r\nfalse\n");
    let same = |operator: Operator| computed(binary(column("v"), operator, column("v")));
    assert_eq!(same(Operator::Eq), "r\ntrue\n");
    assert_eq!(same(Operator::NotEq), "r\nfalse\n");
    assert_eq!(same(Operator::Gt), "r\nfalse\n");
    assert_eq!(same(Operator::GtEq), "r\ntrue\n");
    assert_eq!(same(Operator::Lt), "r\nfalse\n");
    assert_eq!(same(Operator::LtEq), "r\ntrue\n");
}

#[test]
fn logic_is_done_by_the_engine() {
    let yes = || binary(column("v"), Operator::Gt, column("w"));
    let no = || binary(column("v"), Operator::Lt, column("w"));
    assert_eq!(computed(binary(yes(), Operator::And, no())), "r\nfalse\n");
    assert_eq!(computed(binary(yes(), Operator::And, yes())), "r\ntrue\n");
    assert_eq!(computed(binary(yes(), Operator::Or, no())), "r\ntrue\n");
    assert_eq!(computed(binary(no(), Operator::Or, no())), "r\nfalse\n");
}

#[test]
fn numerals_are_read_by_the_engine() {
    assert_eq!(computed(binary(column("v"), Operator::Plus, literal("1.5"))), "r\n8.5\n");
    assert_eq!(computed(binary(column("v"), Operator::Plus, literal("100"))), "r\n107.0\n");
    assert_eq!(computed(binary(column("v"), Operator::Plus, literal("1e2"))), "r\n107.0\n");
}

#[test]
fn numeral_that_spells_no_number_counts_as_zero() {
    assert_eq!(computed(binary(column("v"), Operator::Plus, literal("abc"))), "r\n7.0\n");
    assert_eq!(computed(binary(column("v"), Operator::Plus, literal(""))), "r\n7.0\n");
}

#[test]
fn filter_keeps_the_rows_that_meet_the_predicate() {
    let mut sql = plain(vec![column("k"), column("v")]);
    sql.condition = Some(binary(
        binary(column("v"), Operator::GtEq, literal("2")),
        Operator::And,
        binary(column("w"), Operator::Lt, literal("5.5")),
    ));
    let mut table = query(sql, FormatType::Csv, CSV.to_string()).unwrap();
    assert_eq!(table.to_csv().unwrap(), "k,v\nb,2\na,3\nc,4\n");
}

#[test]
fn sort_goes_by_each_key_in_its_direction() {
    let mut sql = plain(vec![column("k"), column("v")]);
    sql.order_by = vec![("k".to_string(), OrderType::Asc), ("v".to_string(), OrderType::Desc)];
    let mut table = query(sql, FormatType::Csv, CSV.to_string()).unwrap();
    assert_eq!(table.to_csv().unwrap(), "k,v\na,6\na,3\na,1\nb,5\nb,2\nc,4\n");
    let mut sql = plain(vec![column("k"), column("v")]);
    sql.order_by = vec![("k".to_string(), OrderType::Desc), ("v".to_string(), OrderType::Asc)];
    let mut table = query(sql, FormatType::Csv, CSV.to_string()).unwrap();
    assert_eq!(table.to_csv().unwrap(), "k,v\nc,4\nb,2\nb,5\na,1\na,3\na,6\n");
}

#[test]
fn offset_alone_keeps_twenty_rows_of_the_table() {
    let mut text = String::from("i\n");
    for i in 0..50 {
        text.push_str(&format!("{}\n", i));
    }
    let mut sql = plain(vec![column("i")]);
    sql.offset = Some(0);
    assert_eq!(query(sql, FormatType::Csv, text.clone()).unwrap().height(), 20);
    let mut sql = plain(vec![column("i")]);
    sql.offset = Some(45);
    assert_eq!(query(sql, FormatType::Csv, text.clone()).unwrap().height(), 5);
    let mut sql = plain(vec![column("i")]);
    sql.limit = Some(30);
    assert_eq!(query(sql, FormatType::Csv, text.clone()).unwrap().height(), 30);
    let mut sql = plain(vec![column("i")]);
    sql.limit = Some(usize::MAX);
    assert_eq!(query(sql, FormatType::Csv, text.clone()).unwrap().height(), 50);
    assert_eq!(query(plain(vec![column("i")]), FormatType::Csv, text).unwrap().height(), 50);
}

#[test]
fn alias_renames_a_column() {
    let sql = plain(vec![named(column("v"), "value"), Expression::Wildcard]);
    let table = query(sql, FormatType::Csv, CSV.to_string()).unwrap();
    let names: Vec<String> = table.columns().into_iter().map(|c| c.0).collect();
    assert_eq!(names, vec!["value", "k", "v", "w"]);
    assert_eq!(table.width(), 4);
    assert_eq!(table.height(), 6);
}

#[test]
fn each_aggregate_reduces_its_group() {
    let aggregate = |function: AggregateFunction, of: Expression, name: &str| {
        named(Expression::Aggregate { function, expr: Box::new(of) }, name)
    };
    let mut sql = plain(vec![
        column("k"),
        column("n"),
        column("c"),
        column("hi"),
        column("lo"),
        column("s"),
        column("m"),
    ]);
    sql.group_by = vec!["k".to_string()];
    sql.aggregation = vec![
        aggregate(AggregateFunction::Count, Expression::Wildcard, "n"),
        aggregate(AggregateFunction::Count, column("v"), "c"),
        aggregate(AggregateFunction::Max, column("v"), "hi"),
        aggregate(AggregateFunction::Min, column("v"), "lo"),
        aggregate(AggregateFunction::Sum, column("v"), "s"),
        aggregate(AggregateFunction::Avg, column("w"), "m"),
    ];
    let mut table = query(sql, FormatType::Csv, CSV.to_string()).unwrap();
    let text = table.to_csv().unwrap();
    let mut lines: Vec<&str> = text.lines().collect();
    assert_eq!(lines.remove(0), "k,n,c,hi,lo,s,m");
    lines.sort();
    assert_eq!(lines, vec!["a,3,3,6,1,10,3.8333333333333335", "b,2,2,5,2,7,4.0", "c,1,1,4,4,4,4.5"]);
}

#[test]
fn table_is_written_as_csv_and_as_json() {
    let mut table = detect_content(FormatType::Csv, "k,v\na,1\nb,2\n".to_string()).load().unwrap();
    assert_eq!(table.to_csv().unwrap(), "k,v\na,1\nb,2\n");
    assert_eq!(table.to_json().unwrap(), "{\"k\":\"a\",\"v\":1}\n{\"k\":\"b\",\"v\":2}\n");
    assert_eq!(render(&mut table, FormatType::Csv).unwrap(), "k,v\na,1\nb,2\n");
    assert_eq!(
        render(&mut table, FormatType::Json).unwrap(),
        "{\"k\":\"a\",\"v\":1}\n{\"k\":\"b\",\"v\":2}\n"
    );
    assert_eq!(table.height(), 2);
    assert_eq!(table.width(), 2);
}

#[test]
fn written_bytes_are_read_as_text() {
    assert_eq!(serialized(Ok(b"a,b\n1,2\n".to_vec())), Ok("a,b\n1,2\n".to_string()));
    assert_eq!(serialized(Ok("héllo, wörld".as_bytes().to_vec())), Ok("héllo, wörld".to_string()));
    assert_eq!(serialized(Ok(vec![])), Ok(String::new()));
    assert_eq!(
        serialized(Ok(vec![0x61, 0xff, 0x62])),
        Err(CustomError::PolarsError { error: "invalid utf-8".to_string() })
    );
    assert_eq!(
        serialized(Ok(vec![0xc3])),
        Err(CustomError::PolarsError { error: "invalid utf-8".to_string() })
    );
    assert_eq!(
        serialized(Err("disk full".to_string())),
        Err(CustomError::PolarsError { error: "disk full".to_string() })
    );
}

#[test]
fn columns_have_the_types_that_the_engine_infers() {
    let list = show_columns(FormatType::Csv, CSV.to_string()).unwrap();
    assert_eq!(list.len(), 3);
    assert_eq!(list[0].0, "k");
    assert_eq!(list[0].1, ColumnType(DataType::String));
    assert_eq!(list[1].1, ColumnType(DataType::Int64));
    assert_eq!(list[2].1, ColumnType(DataType::Float64));
    assert_eq!(*list[2].1, DataType::Float64);
    let json = "[{\"sepalLength\":5.1,\"species\":\"setosa\"}]";
    let list = show_columns(FormatType::Json, json.to_string()).unwrap();
    assert_eq!(list.len(), 2);
    assert_eq!(list[0].0, "sepalLength");
    assert_eq!(list[0].1, ColumnType(DataType::Float64));
    assert_eq!(list[1].1.name(), "str");
}

#[test]
fn columns_of_a_wide_table_come_in_file_order() {
    let names: Vec<String> = (0..67).map(|i| format!("column_{}", i)).collect();
    let values: Vec<String> = (0..67).map(|i| i.to_string()).collect();
    let text = format!("{}\n{}\n", names.join(","), values.join(","));
    let list = show_columns(FormatType::Csv, text).unwrap();
    assert_eq!(list.len(), 67);
    for (i, (name, column_type)) in list.iter().enumerate() {
        assert_eq!(name, &names[i]);
        assert_eq!(column_type, &ColumnType(DataType::Int64));
    }
}

#[test]
fn columns_cannot_be_listed_of_text_that_does_not_load() {
    assert!(matches!(
        show_columns(FormatType::Json, "{".to_string()),
        Err(CustomError::FetchError { url, .. }) if url.is_empty()
    ));
    assert!(matches!(
        query(plain(vec![Expression::Wildcard]), FormatType::Json, "{".to_string())
            .map(|t| t.height()),
        Err(CustomError::FetchError { url, .. }) if url.is_empty()
    ));
}

#[test]
fn column_type_can_be_changed_in_place() {
    let mut column_type = ColumnType(DataType::Int64);
    *column_type = DataType::Boolean;
    assert_eq!(column_type, ColumnType(DataType::Boolean));
    assert_eq!(column_type.name(), "bool");
}

#[test]
fn what_the_engine_gave_is_the_answer() {
    let table = detect_content(FormatType::Csv, "k,v\na,1\nb,2\nc,3\n".to_string()).load().unwrap();
    let answer = answered(Ok(table)).unwrap();
    assert_eq!(answer.height(), 3);
    assert_eq!(answer.width(), 2);
    assert_eq!(
        answered(Err("column not found".to_string())).map(|t| t.height()),
        Err(CustomError::PolarsError { error: "column not found".to_string() })
    );
}

#[test]
fn writing_leaves_the_table_as_it_was() {
    let mut table =
        detect_content(FormatType::Csv, "k,v\na,1\nb,2\nc,3\n".to_string()).load().unwrap();
    let first = table.to_csv().unwrap();
    let json = table.to_json().unwrap();
    assert_eq!(table.height(), 3);
    assert_eq!(table.width(), 2);
    assert_eq!(table.to_csv().unwrap(), first);
    assert_eq!(render(&mut table, FormatType::Json).unwrap(), json);
    let names: Vec<String> = table.columns().into_iter().map(|c| c.0).collect();
    assert_eq!(names, vec!["k", "v"]);
}

#[test]
fn call_with_tags_is_answered_as_text() {
    let sql = || {
        let mut sql = plain(vec![column("k"), column("v")]);
        sql.limit = Some(2);
        sql
    };
    assert_eq!(answer(sql(), None, None, CSV.to_string()), Ok("k,v\na,1\nb,2\n".to_string()));
    assert_eq!(
        answer(sql(), Some("CSV"), Some("json"), CSV.to_string()),
        Ok("{\"k\":\"a\",\"v\":1}\n{\"k\":\"b\",\"v\":2}\n".to_string())
    );
    let json = "[{\"k\":\"a\",\"v\":1},{\"k\":\"b\",\"v\":2},{\"k\":\"c\",\"v\":3}]";
    assert_eq!(
        answer(sql(), Some("json"), Some("csv"), json.to_string()),
        Ok("k,v\na,1\nb,2\n".to_string())
    );
}

#[test]
fn call_with_an_unknown_tag_is_refused_before_anything_is_read() {
    let sql = || plain(vec![column("k")]);
    assert_eq!(
        answer(sql(), Some("xml"), None, CSV.to_string()),
        Err(CustomError::LoadTypeError("xml".to_string()))
    );
    assert_eq!(
        answer(sql(), None, Some("xml"), CSV.to_string()),
        Err(CustomError::LoadTypeError("xml".to_string()))
    );
    assert_eq!(
        answer(sql(), Some("yaml"), Some("xml"), "not a table".to_string()),
        Err(CustomError::LoadTypeError("yaml".to_string()))
    );
    assert_eq!(
        answer(plain(vec![column("nothing")]), Some("csv"), Some("xml"), CSV.to_string()),
        Err(CustomError::LoadTypeError("xml".to_string()))
    );
}

#[test]
fn call_reports_what_fails_after_the_tags() {
    assert!(matches!(
        answer(plain(vec![column("k")]), Some("json"), None, "{".to_string()),
        Err(CustomError::FetchError { url, .. }) if url.is_empty()
    ));
    assert!(matches!(
        answer(plain(vec![column("nothing")]), None, None, CSV.to_string()),
        Err(CustomError::PolarsError { .. })
    ));
}

#[test]
fn types_are_spelled_as_the_engine_spells_them() {
    let list = show_columns(FormatType::Csv, "a,b,c,d\n1,x,2.5,true\n".to_string()).unwrap();
    let spelled: Vec<(String, String)> =
        list.iter().map(|(name, column_type)| (name.clone(), column_type.name())).collect();
    assert_eq!(
        spelled,
        vec![
            ("a".to_string(), "i64".to_string()),
            ("b".to_string(), "str".to_string()),
            ("c".to_string(), "f64".to_string()),
            ("d".to_string(), "bool".to_string())
        ]
    );
    assert_eq!(ColumnType(DataType::Int64).name(), "i64");
    assert_eq!(ColumnType(DataType::String).name(), "str");
}

#[test]
fn table_gives_way_to_the_frame_of_the_engine() {
    let mut table = detect_content(FormatType::Csv, "k,v\na,1\nb,2\nc,3\n".to_string()).load().unwrap();
    assert_eq!(table.shape(), (3, 2));
    assert_eq!(table.column("v").unwrap().get(1).unwrap().try_extract::<i64>().unwrap(), 2);
    table.rename("k", "key".into()).unwrap();
    let names: Vec<String> = table.columns().into_iter().map(|c| c.0).collect();
    assert_eq!(names, vec!["key", "v"]);
    assert_eq!(table.to_csv().unwrap(), "key,v\na,1\nb,2\nc,3\n");
}
