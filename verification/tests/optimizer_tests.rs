use rs_query::datasource::Source;
use rs_query::datatypes::arrow_types::ArrowType;
use rs_query::datatypes::schema::{Field, Schema};
use rs_query::error::QueryError;
use rs_query::execution::ExecutionContext;
use rs_query::logical_plan::data_frame::DataFrame;
use rs_query::logical_plan::expressions::aggr_expr::{max, min, sum};
use rs_query::logical_plan::expressions::binary_expr::and;
use rs_query::logical_plan::expressions::literal_expr::{lit_long, lit_str};
use rs_query::logical_plan::expressions::unary_expr::not;
use rs_query::logical_plan::expressions::{alias, cast, col, col_index};
use rs_query::logical_plan::limit::Limit;
use rs_query::logical_plan::scan::Scan;
use rs_query::logical_plan::LogicalPlan;
use rs_query::optimizer::projection_push_down_rule::ProjectionPushDownRule;
use rs_query::optimizer::{add_name, contains_name, extract_all_columns, extract_columns, Optimizer};

fn employee_csv() -> Vec<u8> {
    "id,first_name,last_name,state,job_title,salary\n\
     1,Bill,Hopkins,CA,Manager,12000\n\
     2,Gregg,Langford,CO,Driver,10000\n\
     3,John,Travis,CO,Driver,11500\n\
     4,Von,Mill,CA,Manager,11500\n"
        .as_bytes()
        .to_vec()
}

fn employees() -> DataFrame {
    ExecutionContext::new(Vec::new())
        .csv("testdata/employee.csv", employee_csv(), true)
        .unwrap()
}

#[test]
fn projection_push_down() {
    let df = employees()
        .filter(col("state").eq(lit_str("CO")))
        .aggregate(
            vec![col("state")],
            vec![
                sum(cast(col("salary"), ArrowType::DoubleType)),
                min(cast(col("salary"), ArrowType::Int64Type)),
            ],
        );

    let plan = df.into_logical_plan();

    let optimized_plan = Optimizer::optimize(plan).unwrap();

    let expected_plan = "Aggregate: group_expr=state, aggregate_expr=SUM(CAST(salary AS DoubleType)), MIN(CAST(salary AS Int64Type))\n\
        \tSelection: state = CO\n\
        \t\tScan: testdata/employee.csv; projection=[\"state\", \"salary\"]\n";

    assert_eq!(expected_plan, optimized_plan.pretty())
}

fn leaf_projection(plan: &LogicalPlan) -> Vec<String> {
    match plan {
        LogicalPlan::Scan(s) => s.projection.clone(),
        _ => leaf_projection(plan.children()[0]),
    }
}

#[test]
fn the_scan_reads_what_the_plan_refers_to() {
    let df = employees()
        .filter(and(
            col("state").eq(lit_str("CO")),
            not(col("town").eq(col("first_name"))),
        ))
        .project(vec![
            alias(cast(col("salary"), ArrowType::Int64Type).add(lit_long(1)), "pay"),
            col("state"),
            col_index(4),
        ])
        .filter(col("pay").gt(lit_long(10)));

    let optimized = Optimizer::optimize(df.into_logical_plan()).unwrap();

    assert_eq!(
        leaf_projection(&optimized),
        vec!["first_name", "state", "job_title", "salary"]
    );
    assert_eq!(
        optimized.pretty(),
        "Selection: pay > 10\n\
         \tProjection: CAST(salary AS Int64Type) + 1 AS pay, state, 4\n\
         \t\tSelection: state = CO AND NOT town = first_name\n\
         \t\t\tScan: testdata/employee.csv; projection=[\"first_name\", \"state\", \"job_title\", \"salary\"]\n"
    );
}

#[test]
fn optimizing_keeps_the_schema_of_a_projection() {
    let df = employees()
        .filter(col("state").eq(lit_str("CO")))
        .project(vec![
            alias(cast(col("salary"), ArrowType::Int64Type), "pay"),
            col("first_name"),
            col("town"),
        ]);
    let before = df.schema().to_string();

    let optimized = Optimizer::optimize(df.into_logical_plan()).unwrap();

    assert_eq!(before, "[pay: Int64Type, first_name: StringType]");
    assert_eq!(optimized.schema().to_string(), before);
}

#[test]
fn optimizing_narrows_the_schema_of_a_bare_selection() {
    let df = employees().filter(col("state").eq(lit_str("CO")));

    let optimized = Optimizer::optimize(df.into_logical_plan()).unwrap();

    assert_eq!(optimized.schema().to_string(), "[state: StringType]");
}

#[test]
fn a_plan_that_refers_to_nothing_scans_everything() {
    let optimized = Optimizer::optimize(employees().into_logical_plan()).unwrap();

    assert_eq!(
        optimized.pretty(),
        "Scan: testdata/employee.csv; projection=None\n"
    );
    assert_eq!(optimized.schema().fields.len(), 6);
}

#[test]
fn a_projection_that_is_there_is_replaced() {
    let source = Source::from_csv("testdata/employee.csv", employee_csv(), None, true, 1024).unwrap();
    let scan = Scan::new("employee".to_string(), source, vec!["id".to_string()]).unwrap();
    let df = DataFrame {
        plan: LogicalPlan::Scan(scan),
    }
    .project(vec![col("state")]);

    let optimized = Optimizer::optimize(df.into_logical_plan()).unwrap();

    assert_eq!(leaf_projection(&optimized), vec!["state"]);
}

#[test]
fn the_optimizer_does_not_handle_a_limit() {
    let plan = LogicalPlan::Limit(Limit::new(employees().into_logical_plan(), 5));

    match Optimizer::optimize(plan) {
        Err(QueryError::UnsupportedPlan(kind)) => assert_eq!(kind, "Limit: 5"),
        _ => panic!("a failure for the plan was expected"),
    }
}

#[test]
fn a_column_index_beyond_the_input_stops_the_optimizer() {
    let df = employees()
        .project(vec![col("id"), col("state")])
        .filter(col_index(2).eq(lit_long(1)));

    assert!(matches!(
        Optimizer::optimize(df.into_logical_plan()),
        Err(QueryError::IndexOutOfRange(2))
    ));
}

#[test]
fn the_columns_of_an_expression_are_gathered() {
    let schema = employees().schema();
    let mut names: Vec<String> = vec!["zip".to_string()];

    let expression = max(alias(
        cast(col("salary"), ArrowType::Int64Type).mult(col_index(0)),
        "x",
    ))
    .eq(not(col("state").neq(lit_str("salary"))));
    extract_columns(&expression, &schema, &mut names).unwrap();

    assert_eq!(names, vec!["zip", "salary", "id", "state"]);

    extract_all_columns(&vec![col("id"), col("town"), lit_long(3)], &schema, &mut names).unwrap();
    assert_eq!(names, vec!["zip", "salary", "id", "state", "town"]);

    assert!(matches!(
        extract_columns(&col_index(9), &schema, &mut names),
        Err(QueryError::IndexOutOfRange(9))
    ));
}

#[test]
fn a_name_is_added_once() {
    let mut names: Vec<String> = Vec::new();

    add_name(&mut names, "b");
    add_name(&mut names, "a");
    add_name(&mut names, "b");

    assert_eq!(names, vec!["b", "a"]);
    assert!(contains_name(&names, "a"));
    assert!(!contains_name(&names, "c"));
}

#[test]
fn a_scan_projection_follows_the_fields_of_the_source() {
    let source = Schema {
        fields: vec![
            Field { name: "state".to_string(), data_type: ArrowType::StringType },
            Field { name: "id".to_string(), data_type: ArrowType::Int32Type },
            Field { name: "salary".to_string(), data_type: ArrowType::Int64Type },
            Field { name: "state".to_string(), data_type: ArrowType::Int8Type },
            Field { name: "Zip".to_string(), data_type: ArrowType::StringType },
        ],
    };
    let names: Vec<String> = ["salary", "Zip", "town", "state", "salary"]
        .iter()
        .map(|n| n.to_string())
        .collect();

    assert_eq!(
        ProjectionPushDownRule::scan_projection(&source, &names),
        vec!["state", "salary", "Zip"]
    );
    assert!(ProjectionPushDownRule::scan_projection(&source, &Vec::new()).is_empty());
}

#[test]
fn the_rule_gathers_the_names_that_the_plan_refers_to() {
    let df = employees()
        .filter(col("state").eq(lit_str("CO")))
        .project(vec![col("salary"), col("state"), col("town")]);
    let mut names = vec!["id".to_string()];

    let optimized = ProjectionPushDownRule::push_down(df.into_logical_plan(), &mut names).unwrap();

    assert_eq!(names, vec!["id", "salary", "state", "town"]);
    assert_eq!(leaf_projection(&optimized), vec!["id", "state", "salary"]);
}
