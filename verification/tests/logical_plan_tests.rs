use rs_query::datasource::Source;
use rs_query::datatypes::arrow_types::ArrowType;
use rs_query::error::QueryError;
use rs_query::logical_plan::aggregate::Aggregate;
use rs_query::logical_plan::data_frame::{DataFrame, DF};
use rs_query::logical_plan::expressions::aggr_expr::{avg, count, count_distinct, max, min, sum};
use rs_query::logical_plan::expressions::binary_expr::{and, or};
use rs_query::logical_plan::expressions::literal_expr::{
    lit_double, lit_float, lit_long, lit_str, LiteralExpr,
};
use rs_query::logical_plan::expressions::unary_expr::not;
use rs_query::logical_plan::expressions::{alias, cast, col, col_index, Expr};
use rs_query::logical_plan::limit::Limit;
use rs_query::logical_plan::projection::Projection;
use rs_query::logical_plan::scan::Scan;
use rs_query::logical_plan::selection::Selection;
use rs_query::logical_plan::LogicalPlan;

fn employee_csv() -> Vec<u8> {
    "id,first_name,last_name,state,job_title,salary\n\
     1,Bill,Hopkins,CA,Manager,12000\n\
     2,Gregg,Langford,CO,Driver,10000\n\
     3,John,Travis,CO,Driver,11500\n\
     4,Von,Mill,CA,Manager,11500\n"
        .as_bytes()
        .to_vec()
}

fn employee_source() -> Source {
    Source::from_csv("testdata/employee.csv", employee_csv(), None, true, 1024).unwrap()
}

fn employee_scan() -> LogicalPlan {
    LogicalPlan::Scan(Scan::new("employee".to_string(), employee_source(), vec![]).unwrap())
}

fn test_csv() -> DataFrame {
    DF::from_csv("testdata/employee.csv", employee_csv(), None, true, 1024).unwrap()
}

#[test]
fn test_build_logical_plan() {
    // create a plan to represent the scan of the data source (FROM)
    let scan = employee_scan();
    // create a plan to represent the selection (WHERE)
    let filter_expr = col("state").eq(lit_str("CO"));
    let selection = LogicalPlan::Selection(Selection::new(scan, filter_expr));
    // create a plan to represent the projection (SELECT)
    let plan = LogicalPlan::Projection(Projection::new(
        selection,
        vec![col("id"), col("first_name"), col("last_name")],
    ));

    let plan_string = rs_query::logical_plan::format(&plan, 0);
    assert_eq!(
        "Projection: id, first_name, last_name\n\tSelection: state = CO\n\t\tScan: employee; projection=None\n",
        plan_string
    );
}

#[test]
fn test_build_nested_logical_plan() {
    let plan = LogicalPlan::Projection(Projection::new(
        LogicalPlan::Selection(Selection::new(
            LogicalPlan::Scan(
                Scan::new("employee".to_string(), employee_source(), vec![]).unwrap(),
            ),
            col("state").eq(lit_str("CO")),
        )),
        vec![col("id"), col("first_name"), col("last_name")],
    ));

    let plan_string = rs_query::logical_plan::format(&plan, 0);
    assert_eq!(
        "Projection: id, first_name, last_name\n\tSelection: state = CO\n\t\tScan: employee; projection=None\n",
        plan_string
    );
}

#[test]
fn test_logical_scan() {
    let scan = employee_scan();
    let plan_string = rs_query::logical_plan::format(&scan, 0);
    assert_eq!("Scan: employee; projection=None\n", plan_string);
}

#[test]
fn selection_test_logical_selection() {
    let scan = employee_scan();

    let filter_expr = col("state").eq(lit_str("CO"));
    let selection = LogicalPlan::Selection(Selection::new(scan, filter_expr));
    let plan_string = rs_query::logical_plan::format(&selection, 0);
    assert_eq!(
        "Selection: state = CO\n\tScan: employee; projection=None\n",
        plan_string
    );
}

#[test]
fn test_logical_projection() {
    let scan = employee_scan();

    let projection = LogicalPlan::Projection(Projection::new(scan, vec![col("id")]));
    let plan_string = rs_query::logical_plan::format(&projection, 0);
    assert_eq!(
        "Projection: id\n\tScan: employee; projection=None\n",
        plan_string
    );
}

#[test]
fn aggregate_test_logical_selection() {
    let scan = employee_scan();

    let group_expr = vec![col("state")];
    let aggr_expr = vec![
        max(cast(col("salary"), ArrowType::Int32Type)),
        col("must_not_be_in_plan"),
    ];
    let aggregate = LogicalPlan::Aggregate(Aggregate::new(scan, group_expr, aggr_expr));

    let plan_string = rs_query::logical_plan::format(&aggregate, 0);
    assert_eq!(
        "Aggregate: group_expr=state, aggregate_expr=MAX(CAST(salary AS Int32Type))\n\tScan: employee; projection=None\n",
        plan_string
    );
}

#[test]
fn test_build_data_frame() {
    let df = test_csv()
        .filter(col("state").eq(lit_str("CO")))
        .project(vec![col("id"), col("first_name"), col("last_name")]);

    assert_eq!(
        "Projection: id, first_name, last_name\n\
        \tSelection: state = CO\n\
        \t\tScan: testdata/employee.csv; projection=None\n",
        df.logical_plan().pretty()
    );
}

#[test]
fn test_aggregate_data_frame() {
    let df = test_csv().aggregate(
        vec![col("state")],
        vec![min(col("salary")), max(col("salary")), count(col("salary"))],
    );

    let logical_plan_string = df.logical_plan().pretty();

    assert_eq!(
        "Aggregate: group_expr=state, aggregate_expr=MIN(salary), MAX(salary), COUNT(salary)\n\
            \tScan: testdata/employee.csv; projection=None\n",
        logical_plan_string
    );
}

#[test]
fn an_alias_of_integer_arithmetic_in_a_data_frame() {
    let df = test_csv()
        .filter(col("state").eq(lit_str("CO")))
        .project(vec![
            col("id"),
            col("first_name"),
            col("last_name"),
            col("salary"),
            alias(col("salary").mult(lit_long(2)), "bonus"),
        ])
        .filter(col("bonus").gt(lit_long(1000)));

    assert_eq!(
        "Selection: bonus > 1000\n\
     \tProjection: id, first_name, last_name, salary, salary * 2 AS bonus\n\
     \t\tSelection: state = CO\n\
     \t\t\tScan: testdata/employee.csv; projection=None\n",
        df.logical_plan().pretty()
    );
}

fn display_expressions() {
    let lit1 = || lit_long(5);
    let lit2 = || lit_long(10);

    let add_result = lit1().add(lit2());
    let sub_result = lit1().subtract(lit2());
    let div_result = lit1().div(lit2());
    let mult_result = lit1().mult(lit2());
    let mod_result = lit1().modulus(lit2());
    let eq_result = lit1().eq(lit2());
    let gt_result = lit1().gt(lit2());
    let gteq_result = lit1().gteq(lit2());
    let neq_result = lit1().neq(lit2());
    let lt_result = lit1().lt(lit2());
    let lteq_result = lit1().lteq(lit2());

    assert_eq!("5 + 10", add_result.to_string());
    assert_eq!("5 - 10", sub_result.to_string());
    assert_eq!("5 / 10", div_result.to_string());
    assert_eq!("5 * 10", mult_result.to_string());
    assert_eq!("5 % 10", mod_result.to_string());
    assert_eq!("5 = 10", eq_result.to_string());
    assert_eq!("5 > 10", gt_result.to_string());
    assert_eq!("5 >= 10", gteq_result.to_string());
    assert_eq!("5 != 10", neq_result.to_string());
    assert_eq!("5 < 10", lt_result.to_string());
    assert_eq!("5 <= 10", lteq_result.to_string());
}

fn chained_expression() {
    let col1 = || col("COL_1");
    let col2 = || col("COL_2");

    let col_result = col1().eq(col2());

    let max = max(col1());
    let col_result2 = max.div(min(col2()).alias("min2"));

    assert_eq!("COL_1 = COL_2", col_result.to_string());
    assert_eq!("MAX(COL_1) / MIN(COL_2) AS min2", col_result2.to_string())
}

#[test]
fn display_expressions_test() {
    display_expressions();
}

#[test]
fn test_display_expressions() {
    display_expressions();
}

#[test]
fn chained_expression_test() {
    chained_expression();
}

#[test]
fn test_chained_expression() {
    chained_expression();
}

#[test]
fn every_expression_has_its_text() {
    assert_eq!(col("a").eq(lit_str("x")).to_string(), "a = x");
    assert_eq!(cast(col("s"), ArrowType::Int64Type).to_string(), "CAST(s AS Int64Type)");
    assert_eq!(max(col("s")).to_string(), "MAX(s)");
    assert_eq!(sum(col("s")).to_string(), "SUM(s)");
    assert_eq!(avg(col("s")).to_string(), "AVG(s)");
    assert_eq!(count(col("s")).to_string(), "COUNT(s)");
    assert_eq!(count_distinct(col("s")).to_string(), "COUNT(DISTINCT s)");
    assert_eq!(alias(col("s").mult(lit_long(3)), "bonus").to_string(), "s * 3 AS bonus");
    assert_eq!(not(col("b")).to_string(), "NOT b");
    assert_eq!(col_index(4).to_string(), "4");
    assert_eq!(lit_long(-7).to_string(), "-7");
    assert_eq!(lit_long(i64::MIN).to_string(), "-9223372036854775808");
    assert_eq!(and(col("a"), or(col("b"), col("c"))).to_string(), "a AND b OR c");
}

fn field_of(e: Expr) -> (String, ArrowType) {
    let field = e.to_field(&employee_scan()).unwrap();
    (field.name, field.data_type)
}

#[test]
fn every_expression_has_its_field() {
    assert_eq!(field_of(col("salary")), ("salary".to_string(), ArrowType::StringType));
    assert_eq!(field_of(col_index(3)), ("state".to_string(), ArrowType::StringType));
    assert_eq!(field_of(lit_str("CO")), ("CO".to_string(), ArrowType::StringType));
    assert_eq!(field_of(lit_long(12)), ("12".to_string(), ArrowType::Int64Type));
    assert_eq!(
        field_of(cast(col("salary"), ArrowType::UInt32Type)),
        ("salary".to_string(), ArrowType::UInt32Type)
    );
    assert_eq!(
        field_of(col("state").eq(lit_str("CO"))),
        ("eq".to_string(), ArrowType::BooleanType)
    );
    assert_eq!(
        field_of(and(col("nothing"), col("state"))),
        ("and".to_string(), ArrowType::BooleanType)
    );
    assert_eq!(field_of(not(col("state"))), ("NOT".to_string(), ArrowType::BooleanType));
    assert_eq!(
        field_of(cast(col("salary"), ArrowType::Int16Type).mult(lit_long(2))),
        ("mult".to_string(), ArrowType::Int16Type)
    );
    assert_eq!(
        field_of(lit_long(2).modulus(col("salary"))),
        ("mod".to_string(), ArrowType::Int64Type)
    );
    assert_eq!(
        field_of(max(cast(col("salary"), ArrowType::Int16Type))),
        ("MAX".to_string(), ArrowType::Int16Type)
    );
    assert_eq!(field_of(count(col("salary"))), ("COUNT".to_string(), ArrowType::Int32Type));
    assert_eq!(
        field_of(count_distinct(col("nothing"))),
        ("COUNT_DISTINCT".to_string(), ArrowType::Int32Type)
    );
    assert_eq!(
        field_of(alias(cast(col("id"), ArrowType::Int8Type), "n")),
        ("n".to_string(), ArrowType::Int8Type)
    );
}

#[test]
fn an_unknown_column_has_no_field() {
    match col("town").to_field(&employee_scan()) {
        Err(QueryError::UnknownColumn(name)) => assert_eq!(name, "town"),
        _ => panic!("a failure for the column was expected"),
    }
    match sum(alias(cast(col("town"), ArrowType::Int8Type), "t")).to_field(&employee_scan()) {
        Err(QueryError::UnknownColumn(name)) => assert_eq!(name, "town"),
        _ => panic!("a failure for the column was expected"),
    }
}

#[test]
fn a_column_index_beyond_the_schema_has_no_field() {
    assert!(matches!(
        col_index(6).to_field(&employee_scan()),
        Err(QueryError::IndexOutOfRange(6))
    ));
}

#[test]
fn every_plan_has_its_schema() {
    let scan = Scan::new(
        "employee".to_string(),
        employee_source(),
        vec!["salary".to_string(), "id".to_string()],
    )
    .unwrap();
    assert_eq!(
        LogicalPlan::Scan(scan).schema().to_string(),
        "[salary: StringType, id: StringType]"
    );

    let selection = test_csv().filter(col("state").eq(lit_str("CO")));
    assert_eq!(selection.schema().fields.len(), 6);

    let projection = test_csv().project(vec![
        alias(cast(col("salary"), ArrowType::Int64Type), "pay"),
        col("town"),
        col("id"),
    ]);
    assert_eq!(projection.schema().to_string(), "[pay: Int64Type, id: StringType]");

    let aggregate = test_csv().aggregate(
        vec![col("state")],
        vec![
            sum(cast(col("salary"), ArrowType::DoubleType)),
            count(col("id")),
            col("id"),
        ],
    );
    assert_eq!(
        aggregate.schema().to_string(),
        "[state: StringType, SUM: DoubleType, COUNT: Int32Type]"
    );

    let limit = LogicalPlan::Limit(Limit::new(projection.into_logical_plan(), 10));
    assert_eq!(limit.schema().to_string(), "[pay: Int64Type, id: StringType]");
    assert_eq!(
        limit.pretty(),
        "Limit: 10\n\tProjection: CAST(salary AS Int64Type) AS pay, town, id\n\t\tScan: testdata/employee.csv; projection=None\n"
    );
}

#[test]
fn a_plan_lists_its_input() {
    let scan = employee_scan();
    assert_eq!(scan.children().len(), 0);

    let selection = LogicalPlan::Selection(Selection::new(scan, col("state").eq(lit_str("CO"))));
    let children = selection.children();
    assert_eq!(children.len(), 1);
    assert_eq!(children[0].to_string(), "Scan: employee; projection=None");
}

#[test]
fn a_scan_of_an_unknown_field_cannot_be_made() {
    match Scan::new(
        "employee".to_string(),
        employee_source(),
        vec!["id".to_string(), "town".to_string()],
    ) {
        Err(QueryError::UnknownField(name)) => assert_eq!(name, "town"),
        _ => panic!("a failure for the field was expected"),
    }
}

#[test]
fn formatting_twice_gives_the_same_text() {
    let df = test_csv()
        .filter(col("state").eq(lit_str("CO")))
        .aggregate(vec![col("state")], vec![max(col("salary"))]);

    let first = df.logical_plan().pretty();
    let second = df.logical_plan().pretty();

    assert_eq!(first, second);
    assert_eq!(rs_query::logical_plan::format(df.logical_plan(), 2), rs_query::logical_plan::format(df.logical_plan(), 2));
    assert_eq!(
        rs_query::logical_plan::format(df.logical_plan(), 1),
        "\tAggregate: group_expr=state, aggregate_expr=MAX(salary)\n\t\tSelection: state = CO\n\t\t\tScan: testdata/employee.csv; projection=None\n"
    );
}

#[test]
fn an_in_memory_data_frame_scans_its_schema() {
    let source_schema = employee_source().schema();

    let df = DF::from_in_memory(source_schema, vec![]);

    assert_eq!(df.schema().fields.len(), 6);
    assert_eq!(df.logical_plan().pretty(), "Scan: in_memory; projection=None\n");
}

#[test]
fn test_multiply_alias_data_frame() {
    let df = test_csv()
        .filter(col("state").eq(lit_str("CO")))
        .project(vec![
            col("id"),
            col("first_name"),
            col("last_name"),
            col("salary"),
            alias(col("salary").mult(lit_float("0.1")), "bonus"),
        ])
        .filter(col("bonus").gt(lit_long(1000)));

    assert_eq!(
        "Selection: bonus > 1000\n\
     \tProjection: id, first_name, last_name, salary, salary * 0.1 AS bonus\n\
     \t\tSelection: state = CO\n\
     \t\t\tScan: testdata/employee.csv; projection=None\n",
        df.logical_plan().pretty()
    );
}

#[test]
fn a_floating_point_literal_prints_and_has_its_type() {
    let schema = test_csv().schema();

    let single = lit_float("0.1");
    assert_eq!(single.to_string(), "0.1");
    assert_eq!(single.to_field_in(&schema).unwrap().name, "0.1");
    assert_eq!(single.to_field_in(&schema).unwrap().data_type, ArrowType::FloatType);

    let double = lit_double("17");
    assert_eq!(double.to_string(), "17");
    assert_eq!(double.to_field_in(&schema).unwrap().data_type, ArrowType::DoubleType);
    assert!(matches!(double, Expr::Literal(LiteralExpr::LiteralDouble(l)) if l.text == "17"));

    let product = lit_double("2.5").mult(col("salary"));
    assert_eq!(product.to_string(), "2.5 * salary");
    assert_eq!(product.to_field_in(&schema).unwrap().data_type, ArrowType::DoubleType);
}

#[test]
fn a_data_frame_scans_what_it_was_made_of() {
    let df = test_csv();

    match df.logical_plan() {
        LogicalPlan::Scan(scan) => {
            assert_eq!(scan.path, "testdata/employee.csv");
            assert!(scan.projection.is_empty());
            match &scan.datasource {
                Source::CSV(c) => {
                    assert_eq!(c.file_name, "testdata/employee.csv");
                    assert_eq!(c.batch_size, 1024);
                    assert!(c.has_headers);
                    assert!(!c.content.is_empty());
                    assert_eq!(c.schema.fields.len(), 6);
                },
                _ => panic!("a csv source was expected"),
            }
        },
        _ => panic!("a scan was expected"),
    }
}
