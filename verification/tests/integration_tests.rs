use rs_query::datatypes::arrow_types::ArrowType;
use rs_query::error::QueryError;
use rs_query::execution::ExecutionContext;
use rs_query::logical_plan::data_frame::DataFrame;
use rs_query::logical_plan::expressions::aggr_expr::{count, count_distinct, max, min, sum};
use rs_query::logical_plan::expressions::binary_expr::{and, or};
use rs_query::logical_plan::expressions::literal_expr::{lit_long, lit_str};
use rs_query::logical_plan::expressions::{alias, cast, col};

fn employee_csv() -> Vec<u8> {
    "id,first_name,last_name,state,job_title,salary\n\
     1,Bill,Hopkins,CA,Manager,12000\n\
     2,Gregg,Langford,CO,Driver,10000\n\
     3,John,Travis,CO,Driver,11500\n\
     4,Von,Mill,CA,Manager,11500\n"
        .as_bytes()
        .to_vec()
}

fn employees(ctx: &ExecutionContext) -> DataFrame {
    ctx.csv("testdata/employee.csv", employee_csv(), true).unwrap()
}

#[test]
fn project_from_csv() {
    let ctx = ExecutionContext::new(Vec::new());

    let df = employees(&ctx).project(vec![col("first_name")]);

    let batches = ctx.execute(df, false).unwrap();
    let batch = batches.first().unwrap();

    assert_eq!("Bill\nGregg\nJohn\nVon\n", batch.to_csv().unwrap());
}

#[test]
fn filter_from_csv() {
    let ctx = ExecutionContext::new(Vec::new());

    let df = employees(&ctx)
        .filter(col("state").eq(lit_str("CO")))
        .project(vec![alias(col("last_name"), "name"), col("first_name")]);

    let batches = ctx.execute(df, false).unwrap();
    let batch = batches.first().unwrap();

    assert_eq!(batch.schema.fields.first().unwrap().name, "name");
    assert_eq!("Langford,Gregg\nTravis,John\n", batch.to_csv().unwrap());
}

#[test]
fn filter_with_or_expression_from_csv() {
    let ctx = ExecutionContext::new(Vec::new());

    let df = employees(&ctx)
        .filter(or(
            col("state").eq(lit_str("CO")),
            col("state").eq(lit_str("CA")),
        ))
        .project(vec![alias(col("last_name"), "name"), col("first_name")]);

    let batches = ctx.execute(df, false).unwrap();
    let batch = batches.first().unwrap();

    assert_eq!(
        "Hopkins,Bill\nLangford,Gregg\nTravis,John\nMill,Von\n",
        batch.to_csv().unwrap()
    );
}

#[test]
fn filter_with_and_expression_from_csv() {
    let ctx = ExecutionContext::new(Vec::new());

    let df = employees(&ctx)
        .filter(and(
            col("state").eq(lit_str("CO")),
            cast(col("salary"), ArrowType::Int64Type).eq(lit_long(11500)),
        ))
        .project(vec![alias(col("last_name"), "name"), col("first_name")]);

    let batches = ctx.execute(df, false).unwrap();
    let batch = batches.first().unwrap();
    assert_eq!("Travis,John\n", batch.to_csv().unwrap());
}

#[test]
fn filter_with_cast_to_number_from_csv() {
    let ctx = ExecutionContext::new(Vec::new());

    let df = employees(&ctx).filter(cast(col("salary"), ArrowType::Int64Type).eq(lit_long(10000)));

    let batches = ctx.execute(df, false).unwrap();
    let batch = batches.first().unwrap();

    assert_eq!(
        "2,Gregg,Langford,CO,Driver,10000\n",
        batch.to_csv().unwrap()
    );
}

#[test]
fn integer_math_expressions_from_csv() {
    let ctx = ExecutionContext::new(Vec::new());

    let df = employees(&ctx).project(vec![
        alias(
            cast(col("salary"), ArrowType::Int64Type).mult(lit_long(100)),
            "multi_salary",
        ),
        alias(
            cast(col("salary"), ArrowType::Int64Type).div(lit_long(100)),
            "div_salary",
        ),
        alias(
            cast(col("salary"), ArrowType::Int64Type).add(lit_long(100)),
            "add_salary",
        ),
        alias(
            cast(col("salary"), ArrowType::Int64Type).subtract(lit_long(100)),
            "subs_salary",
        ),
        alias(
            cast(col("salary"), ArrowType::Int64Type).modulus(lit_long(17)),
            "mod_salary",
        ),
    ]);

    let batches = ctx.execute(df, false).unwrap();
    let batch = batches.first().unwrap();

    assert_eq!(
        "1200000,120,12100,11900,15\n1000000,100,10100,9900,4\n1150000,115,11600,11400,8\n1150000,115,11600,11400,8\n",
        batch.to_csv().unwrap()
    );
}

#[test]
fn integer_aggregate_from_csv() {
    let ctx = ExecutionContext::new(Vec::new());

    let df = employees(&ctx)
        .aggregate(
            vec![col("state")],
            vec![
                sum(cast(col("salary"), ArrowType::Int64Type)),
                max(cast(col("id"), ArrowType::UInt16Type)),
                min(cast(col("salary"), ArrowType::Int64Type)),
                count(col("id")),
                count_distinct(col("job_title")),
            ],
        )
        .filter(col("state").eq(lit_str("CO")));

    let batches = ctx.execute(df, false).unwrap();
    assert_eq!(batches.len(), 1);
    assert_eq!("CO,21500,3,10000,2,1\n", batches[0].to_csv().unwrap());
}

#[test]
fn groups_come_out_in_the_order_of_their_first_rows() {
    let ctx = ExecutionContext::new(Vec::new());

    let df = employees(&ctx).aggregate(
        vec![col("state")],
        vec![sum(cast(col("salary"), ArrowType::Int64Type))],
    );

    let batches = ctx.execute(df, false).unwrap();
    assert_eq!("CA,23500\nCO,21500\n", batches[0].to_csv().unwrap());
}

#[test]
fn optimized_integer_pipeline_from_csv() {
    let ctx = ExecutionContext::new(Vec::new());

    let df = employees(&ctx)
        .filter(col("state").eq(lit_str("CO")))
        .aggregate(
            vec![col("state")],
            vec![
                sum(cast(col("salary"), ArrowType::Int64Type)),
                min(cast(col("salary"), ArrowType::Int64Type)),
            ],
        );

    let batches = ctx.execute(df, true).unwrap();

    assert_eq!("CO,21500,10000\n", batches[0].to_csv().unwrap());
}

#[test]
fn a_cast_to_a_floating_point_type_is_not_evaluated() {
    let ctx = ExecutionContext::new(Vec::new());

    let df = employees(&ctx).aggregate(
        vec![col("state")],
        vec![sum(cast(col("salary"), ArrowType::DoubleType))],
    );

    match ctx.execute(df, false) {
        Err(QueryError::UnsupportedType(ArrowType::DoubleType)) => {}
        _ => panic!("a failure for the type was expected"),
    }
}
