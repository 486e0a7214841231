use rs_query::datasource::in_memory_data_source::InMemoryDataSource;
use rs_query::datasource::Source;
use rs_query::datatypes::arrow_types::ArrowType;
use rs_query::datatypes::arrow_vector_builder::build_vector;
use rs_query::datatypes::record_batch::RecordBatch;
use rs_query::datatypes::scalar::ScalarValue;
use rs_query::datatypes::schema::{Field, Schema};
use rs_query::logical_plan::LogicalPlan;
use rs_query::error::QueryError;
use rs_query::execution::ExecutionContext;
use rs_query::logical_plan::expressions::col;
use rs_query::sql_planner::{Relation, SqlPlanner};
use sqlparser::ast::{Select, SetExpr, Statement};
use sqlparser::dialect::GenericDialect;
use sqlparser::parser::Parser;

fn csv(header: &str) -> Vec<u8> {
    format!("{}\n1,2\n3,4\n5,6\n", header).into_bytes()
}

fn setting(key: &str, value: &str) -> (String, String) {
    (key.to_string(), value.to_string())
}

#[test]
fn the_batch_size_comes_from_the_settings() {
    assert_eq!(ExecutionContext::new(Vec::new()).batch_size, 1024);
    assert_eq!(
        ExecutionContext::new(vec![setting("csv.batch_size", "2")]).batch_size,
        2
    );
    assert_eq!(
        ExecutionContext::new(vec![
            setting("csv.batch_size", "2"),
            setting("other", "7"),
            setting("csv.batch_size", "3")
        ])
        .batch_size,
        3
    );
    assert_eq!(
        ExecutionContext::new(vec![setting("csv.batch_size", "many")]).batch_size,
        1024
    );
    assert_eq!(
        ExecutionContext::new(vec![setting("csv.batch_size", "-1")]).batch_size,
        1024
    );
    assert_eq!(
        ExecutionContext::new(vec![setting("csv.batch_size", "18446744073709551616")]).batch_size,
        1024
    );
    assert_eq!(
        ExecutionContext::new(vec![setting("csv.batch_size", "+4294967295")]).batch_size,
        4294967295
    );
}

#[test]
fn the_batch_size_bounds_the_batches() {
    let ctx = ExecutionContext::new(vec![setting("csv.batch_size", "2")]);
    let df = ctx.csv("t.csv", csv("a,b"), true).unwrap();

    let batches = ctx.execute(df, false).unwrap();

    assert_eq!(batches.len(), 2);
    assert_eq!(batches[0].row_count(), 2);
    assert_eq!(batches[1].row_count(), 1);
}

#[test]
fn a_later_table_replaces_an_earlier_one_of_its_name() {
    let mut ctx = ExecutionContext::new(Vec::new());

    ctx.register_csv("t", "t.csv", csv("a,b"), true).unwrap();
    ctx.register_csv("u", "u.csv", csv("c,d"), true).unwrap();
    ctx.register_csv("t", "v.csv", csv("e,f"), true).unwrap();

    assert_eq!(ctx.tables.len(), 2);
    assert_eq!(ctx.find_table("t"), Some(0));
    assert_eq!(ctx.find_table("u"), Some(1));
    assert_eq!(ctx.find_table("v"), None);
    assert_eq!(
        ctx.tables[0].df.logical_plan().pretty(),
        "Scan: v.csv; projection=None\n"
    );
    assert_eq!(ctx.tables[0].df.schema().to_string(), "[e: StringType, f: StringType]");
}

#[test]
fn a_data_frame_and_a_source_are_registered() {
    let mut ctx = ExecutionContext::new(Vec::new());
    let df = ctx.csv("t.csv", csv("a,b"), true).unwrap().project(vec![col("b")]);
    let source = Source::from_csv("u.csv", csv("c,d"), None, true, 10).unwrap();

    ctx.register("first", df);
    ctx.register_data_source("second", source);

    assert_eq!(ctx.tables.len(), 2);
    assert_eq!(ctx.tables[0].name, "first");
    assert_eq!(
        ctx.tables[1].df.logical_plan().pretty(),
        "Scan: second; projection=None\n"
    );
}

#[test]
fn an_in_memory_data_frame_runs() {
    let ctx = ExecutionContext::new(Vec::new());
    let source = Source::from_csv("t.csv", csv("a,b"), None, true, 2).unwrap();
    let schema = source.schema();
    let data = source.scan(vec![]).unwrap();

    let df = ctx.in_memory(schema, data).project(vec![col("b")]);
    let batches = ctx.execute(df, true).unwrap();

    assert_eq!(batches.len(), 2);
    assert_eq!("2\n4\n", batches[0].to_csv().unwrap());
    assert_eq!("6\n", batches[1].to_csv().unwrap());
}

#[test]
fn content_without_a_first_record_has_no_schema() {
    let ctx = ExecutionContext::new(Vec::new());

    assert!(matches!(
        ctx.csv("t.csv", vec![0xff, 0xfe, b'\n', b'1'], true),
        Err(QueryError::SourceIoFailure)
    ));
}

#[test]
fn an_empty_content_has_an_empty_schema() {
    let ctx = ExecutionContext::new(Vec::new());

    let df = ctx.csv("t.csv", Vec::new(), true).unwrap();

    assert_eq!(df.schema().fields.len(), 0);
    assert_eq!(ctx.execute(df, false).unwrap().len(), 0);
}

fn select(sql: &str) -> Select {
    let mut statements = Parser::parse_sql(&GenericDialect {}, sql).unwrap();
    match statements.remove(0) {
        Statement::Query(query) => match *query.body {
            SetExpr::Select(select) => *select,
            _ => panic!("a select was expected"),
        },
        _ => panic!("a query was expected"),
    }
}

#[test]
fn a_select_finds_its_table() {
    let mut ctx = ExecutionContext::new(Vec::new());
    ctx.register_csv("t", "t.csv", csv("a,b"), true).unwrap();
    ctx.register_csv("employee", "u.csv", csv("c,d"), true).unwrap();

    assert_eq!(
        SqlPlanner::create_data_frame(&select("SELECT c FROM employee WHERE d = 1"), &ctx).unwrap(),
        Some(1)
    );
    assert_eq!(
        SqlPlanner::create_data_frame(&select("SELECT a FROM t, employee"), &ctx).unwrap(),
        Some(0)
    );
    assert_eq!(
        SqlPlanner::create_data_frame(&select("SELECT 1"), &ctx).unwrap(),
        None
    );
    match SqlPlanner::create_data_frame(&select("SELECT a FROM town"), &ctx) {
        Err(QueryError::UnknownTable(name)) => assert_eq!(name, "town"),
        _ => panic!("a failure for the table was expected"),
    }
    match SqlPlanner::create_data_frame(&select("SELECT a FROM (SELECT 1) AS s"), &ctx) {
        Err(QueryError::UnsupportedPlan(kind)) => assert_eq!(kind, "FROM"),
        _ => panic!("a failure for the relation was expected"),
    }
}

#[test]
fn a_relation_resolves_to_the_place_of_its_table() {
    let mut ctx = ExecutionContext::new(Vec::new());
    ctx.register_csv("t", "t.csv", csv("a,b"), true).unwrap();

    assert_eq!(SqlPlanner::resolve(Relation::Nothing, &ctx).unwrap(), None);
    assert_eq!(
        SqlPlanner::resolve(Relation::Table("t".to_string()), &ctx).unwrap(),
        Some(0)
    );
    assert!(matches!(
        SqlPlanner::resolve(Relation::Table("T".to_string()), &ctx),
        Err(QueryError::UnknownTable(_))
    ));
    assert!(matches!(
        SqlPlanner::resolve(Relation::Other, &ctx),
        Err(QueryError::UnsupportedPlan(_))
    ));
}

#[test]
fn the_first_relation_is_what_a_select_reads() {
    assert!(matches!(SqlPlanner::first_relation(Vec::new()), Relation::Nothing));
    assert!(matches!(
        SqlPlanner::first_relation(vec![Some("t".to_string()), None, Some("u".to_string())]),
        Relation::Table(name) if name == "t"
    ));
    assert!(matches!(
        SqlPlanner::first_relation(vec![None, Some("u".to_string())]),
        Relation::Other
    ));
}

fn one_column(values: Vec<i32>) -> (Schema, RecordBatch) {
    let fields = || vec![Field { name: "n".to_string(), data_type: ArrowType::Int32Type }];
    let items: Vec<Option<ScalarValue>> =
        values.into_iter().map(|v| Some(ScalarValue::Int32(v))).collect();
    let column = build_vector(ArrowType::Int32Type, &items).unwrap();
    (
        Schema { fields: fields() },
        RecordBatch { schema: Schema { fields: fields() }, fields: vec![column] },
    )
}

#[test]
fn a_data_frame_in_memory_scans_the_batches_it_was_given() {
    let ctx = ExecutionContext::new(Vec::new());
    let (schema, batch) = one_column(vec![7, 8, 9]);

    let df = ctx.in_memory(schema, vec![batch]);

    match df.logical_plan() {
        LogicalPlan::Scan(scan) => {
            assert_eq!(scan.path, "in_memory");
            assert!(scan.projection.is_empty());
            match &scan.datasource {
                Source::InMemory(InMemoryDataSource { schema, data }) => {
                    assert_eq!(schema.to_string(), "[n: Int32Type]");
                    assert_eq!(data.len(), 1);
                    assert_eq!(data[0].row_count(), 3);
                },
                _ => panic!("a source in memory was expected"),
            }
        },
        _ => panic!("a scan was expected"),
    }
    let batches = ctx.execute(df, false).unwrap();
    assert_eq!(batches.len(), 1);
    assert_eq!(batches[0].to_csv().unwrap(), "7\n8\n9\n");
}

#[test]
fn a_registered_source_is_scanned_under_its_name() {
    let mut ctx = ExecutionContext::new(vec![setting("csv.batch_size", "3")]);
    let (schema, batch) = one_column(vec![1, 2]);

    ctx.register_data_source("numbers", Source::from_in_memory(schema, vec![batch]));
    ctx.register_csv("letters", "letters.csv", csv("a,b"), true).unwrap();

    let numbers = &ctx.tables[ctx.find_table("numbers").unwrap()].df;
    match numbers.logical_plan() {
        LogicalPlan::Scan(scan) => {
            assert_eq!(scan.path, "numbers");
            assert!(scan.projection.is_empty());
            assert!(matches!(&scan.datasource, Source::InMemory(m) if m.data.len() == 1));
        },
        _ => panic!("a scan was expected"),
    }
    let letters = &ctx.tables[ctx.find_table("letters").unwrap()].df;
    match letters.logical_plan() {
        LogicalPlan::Scan(scan) => {
            assert_eq!(scan.path, "letters.csv");
            assert!(scan.projection.is_empty());
            match &scan.datasource {
                Source::CSV(c) => {
                    assert_eq!(c.batch_size, 3);
                    assert_eq!(c.file_name, "letters.csv");
                    assert!(c.has_headers);
                    assert_eq!(c.content, csv("a,b"));
                },
                _ => panic!("a csv source was expected"),
            }
        },
        _ => panic!("a scan was expected"),
    }
}
