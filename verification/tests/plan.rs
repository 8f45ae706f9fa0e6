use query_rs::convert::OrderType;
use query_rs::convert::Sql;
use query_rs::expr::Expression;
use query_rs::plan::window;
use query_rs::plan::Plan;
use query_rs::plan::Window;
use query_rs::plan::DEFAULT_LIMIT;

fn column(name: &str) -> Expression {
    Expression::Column(name.to_string())
}

#[test]
fn no_window_without_offset_and_limit() {
    assert_eq!(window(None, None), None);
}

#[test]
fn offset_alone_keeps_twenty_rows() {
    assert_eq!(DEFAULT_LIMIT, 20);
    assert_eq!(window(Some(0), None), Some(Window { offset: 0, length: 20 }));
    assert_eq!(window(Some(7), None), Some(Window { offset: 7, length: 20 }));
    assert_eq!(
        window(Some(i64::MAX), None),
        Some(Window { offset: i64::MAX, length: 20 })
    );
}

#[test]
fn limit_alone_starts_at_the_first_row() {
    assert_eq!(window(None, Some(0)), Some(Window { offset: 0, length: 0 }));
    assert_eq!(window(None, Some(5)), Some(Window { offset: 0, length: 5 }));
}

#[test]
fn offset_and_limit_make_the_window() {
    assert_eq!(window(Some(10), Some(5)), Some(Window { offset: 10, length: 5 }));
}

#[test]
fn limit_beyond_the_engine_is_the_most_it_counts() {
    assert_eq!(
        window(None, Some(u32::MAX as usize)),
        Some(Window { offset: 0, length: u32::MAX })
    );
    assert_eq!(window(None, Some(usize::MAX)), Some(Window { offset: 0, length: u32::MAX }));
    assert_eq!(
        window(Some(3), Some(u32::MAX as usize + 1)),
        Some(Window { offset: 3, length: u32::MAX })
    );
}

#[test]
fn grouped_query_is_planned_as_aggregation() {
    let aggregate = Expression::Alias {
        expr: Box::new(Expression::Aggregate {
            function: query_rs::expr::AggregateFunction::Max,
            expr: Box::new(column("v")),
        }),
        name: "m".to_string(),
    };
    let sql = Sql {
        selection: vec![column("m"), column("k")],
        condition: Some(column("c")),
        source: "http://x",
        order_by: vec![("k".to_string(), OrderType::Asc)],
        offset: Some(1),
        limit: Some(2),
        group_by: vec!["k".to_string()],
        aggregation: vec![Expression::Alias {
            expr: Box::new(Expression::Aggregate {
                function: query_rs::expr::AggregateFunction::Max,
                expr: Box::new(column("v")),
            }),
            name: "m".to_string(),
        }],
    };
    assert_eq!(
        sql.plan(),
        Plan::Aggregate {
            filter: Some(column("c")),
            keys: vec!["k".to_string()],
            aggregation: vec![aggregate],
            projection: vec![column("m"), column("k")],
        }
    );
}

#[test]
fn plain_query_is_planned_as_selection() {
    let sql = Sql {
        selection: vec![column("a"), Expression::Wildcard],
        condition: None,
        source: "http://x",
        order_by: vec![
            ("c".to_string(), OrderType::Desc),
            ("e".to_string(), OrderType::Desc),
            ("b".to_string(), OrderType::Asc),
        ],
        offset: Some(10),
        limit: None,
        group_by: vec![],
        aggregation: vec![],
    };
    assert_eq!(
        sql.plan(),
        Plan::Select {
            filter: None,
            sort: vec![
                ("c".to_string(), true),
                ("e".to_string(), true),
                ("b".to_string(), false)
            ],
            slice: Some(Window { offset: 10, length: 20 }),
            projection: vec![column("a"), Expression::Wildcard],
        }
    );
}

#[test]
fn query_without_limits_is_not_sliced() {
    let sql = Sql {
        selection: vec![Expression::Wildcard],
        condition: None,
        source: "http://x",
        order_by: vec![],
        offset: None,
        limit: None,
        group_by: vec![],
        aggregation: vec![],
    };
    assert_eq!(
        sql.plan(),
        Plan::Select {
            filter: None,
            sort: vec![],
            slice: None,
            projection: vec![Expression::Wildcard],
        }
    );
}
