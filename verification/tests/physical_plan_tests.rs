use rs_query::datatypes::arrow_types::ArrowType;
use rs_query::datatypes::arrow_vector_builder::build_vector;
use rs_query::datatypes::column_vector::ColumnVector;
use rs_query::datatypes::literal_value_vector::LiteralValueVector;
use rs_query::datatypes::record_batch::RecordBatch;
use rs_query::datatypes::scalar::ScalarValue;
use rs_query::datatypes::schema::{Field, Schema};
use rs_query::error::QueryError;
use rs_query::execution::ExecutionContext;
use rs_query::logical_plan::data_frame::DataFrame;
use rs_query::logical_plan::expressions::aggr_expr::{avg, count, count_distinct, max, min, sum};
use rs_query::logical_plan::expressions::binary_expr::{and, or};
use rs_query::logical_plan::expressions::literal_expr::{
    lit_double, lit_float, lit_long, lit_str,
};
use rs_query::logical_plan::expressions::unary_expr::not;
use rs_query::logical_plan::expressions::{alias, cast, col, col_index, Expr};
use rs_query::logical_plan::limit::Limit;
use rs_query::logical_plan::LogicalPlan;
use rs_query::physical_plan::expressions::aggregate_expression::Accumulator;
use rs_query::physical_plan::expressions::cast_expression::{
    convert, convert_to_i16, convert_to_i32, convert_to_i64, convert_to_i8, convert_to_u16,
    convert_to_u32, convert_to_u64, convert_to_u8,
};
use rs_query::physical_plan::expressions::column_expression::ColumnExpression;
use rs_query::physical_plan::expressions::count_expression::{
    CountAccumulator, CountDistinctAccumulator,
};
use rs_query::physical_plan::expressions::max_expression::MaxAccumulator;
use rs_query::physical_plan::expressions::min_expression::MinAccumulator;
use rs_query::physical_plan::expressions::sum_expression::SumAccumulator;
use rs_query::physical_plan::expressions::Expression;
use rs_query::physical_plan::selection_exec::filter;
use rs_query::query_planner::QueryPlanner;

fn text(s: &str) -> ScalarValue {
    ScalarValue::Utf8(s.to_string())
}

fn column(t: ArrowType, values: Vec<Option<ScalarValue>>) -> ColumnVector {
    build_vector(t, &values).unwrap()
}

fn longs(values: Vec<Option<i64>>) -> ColumnVector {
    column(
        ArrowType::Int64Type,
        values.into_iter().map(|v| v.map(ScalarValue::Int64)).collect(),
    )
}

fn bytes(values: Vec<Option<u8>>) -> ColumnVector {
    column(
        ArrowType::UInt8Type,
        values.into_iter().map(|v| v.map(ScalarValue::UInt8)).collect(),
    )
}

fn texts(values: Vec<Option<&str>>) -> ColumnVector {
    column(
        ArrowType::StringType,
        values.into_iter().map(|v| v.map(text)).collect(),
    )
}

fn truths(values: Vec<Option<bool>>) -> ColumnVector {
    column(
        ArrowType::BooleanType,
        values.into_iter().map(|v| v.map(ScalarValue::Boolean)).collect(),
    )
}

fn field(name: &str, data_type: ArrowType) -> Field {
    Field {
        name: name.to_string(),
        data_type,
    }
}

/// Columns: a: Int64, b: Int64, s: Utf8, t: Boolean, u: UInt8.
fn batch() -> RecordBatch {
    RecordBatch {
        schema: Schema {
            fields: vec![
                field("a", ArrowType::Int64Type),
                field("b", ArrowType::Int64Type),
                field("s", ArrowType::StringType),
                field("t", ArrowType::BooleanType),
                field("u", ArrowType::UInt8Type),
            ],
        },
        fields: vec![
            longs(vec![Some(7), Some(-7), None, Some(i64::MAX)]),
            longs(vec![Some(2), Some(2), Some(1), Some(1)]),
            texts(vec![Some("12"), Some("abc"), Some("-3"), None]),
            truths(vec![Some(true), Some(false), None, Some(true)]),
            bytes(vec![Some(200), Some(100), Some(0), Some(1)]),
        ],
    }
}

fn evaluate(e: Expr) -> Result<ColumnVector, QueryError> {
    let b = batch();
    QueryPlanner::create_physical_expr(&e, &b.schema)?.evaluate(&b)
}

fn read_longs(c: &ColumnVector) -> Vec<Option<i64>> {
    (0..c.size())
        .map(|i| match c.get_value(i) {
            Some(ScalarValue::Int64(v)) => Some(v),
            None => None,
            _ => panic!("a 64-bit integer was expected"),
        })
        .collect()
}

fn read_bools(c: &ColumnVector) -> Vec<Option<bool>> {
    (0..c.size())
        .map(|i| match c.get_value(i) {
            Some(ScalarValue::Boolean(v)) => Some(v),
            None => None,
            _ => panic!("a truth value was expected"),
        })
        .collect()
}

fn read_texts(c: &ColumnVector) -> Vec<Option<String>> {
    (0..c.size())
        .map(|i| match c.get_value(i) {
            Some(ScalarValue::Utf8(v)) => Some(v),
            None => None,
            _ => panic!("a text was expected"),
        })
        .collect()
}

#[test]
fn a_column_expression_gives_the_column() {
    let c = evaluate(col("b")).unwrap();
    assert!(c.get_type() == ArrowType::Int64Type);
    assert_eq!(read_longs(&c), vec![Some(2), Some(2), Some(1), Some(1)]);

    let d = evaluate(col_index(0)).unwrap();
    assert_eq!(read_longs(&d), vec![Some(7), Some(-7), None, Some(i64::MAX)]);
}

#[test]
fn a_column_beyond_the_batch_fails() {
    assert!(matches!(
        Expression::Column(ColumnExpression { i: 5 }).evaluate(&batch()),
        Err(QueryError::IndexOutOfRange(5))
    ));
}

#[test]
fn a_literal_gives_a_column_of_the_rows_of_the_batch() {
    let c = evaluate(lit_long(5)).unwrap();
    assert_eq!(read_longs(&c), vec![Some(5), Some(5), Some(5), Some(5)]);
    assert!(c.get_type() == ArrowType::Int64Type);

    let s = evaluate(lit_str("x")).unwrap();
    assert_eq!(s.size(), 4);
    assert!(s.get_type() == ArrowType::StringType);
    assert_eq!(read_texts(&s)[3], Some("x".to_string()));
}

#[test]
fn a_cast_converts_slot_by_slot() {
    let c = evaluate(cast(col("s"), ArrowType::Int64Type)).unwrap();
    assert!(c.get_type() == ArrowType::Int64Type);
    assert_eq!(read_longs(&c), vec![Some(12), None, Some(-3), None]);

    let narrow = evaluate(cast(col("a"), ArrowType::Int8Type)).unwrap();
    assert!(narrow.get_type() == ArrowType::Int8Type);
    assert!(matches!(narrow.get_value(0), Some(ScalarValue::Int8(7))));
    assert!(matches!(narrow.get_value(1), Some(ScalarValue::Int8(-7))));
    assert!(narrow.get_value(2).is_none());
    assert!(narrow.get_value(3).is_none());

    let unsigned = evaluate(cast(col("a"), ArrowType::UInt64Type)).unwrap();
    assert!(matches!(unsigned.get_value(0), Some(ScalarValue::UInt64(7))));
    assert!(unsigned.get_value(1).is_none());
    assert!(matches!(
        unsigned.get_value(3),
        Some(ScalarValue::UInt64(9223372036854775807))
    ));

    let same = evaluate(cast(col("s"), ArrowType::StringType)).unwrap();
    assert_eq!(
        read_texts(&same),
        vec![Some("12".to_string()), Some("abc".to_string()), Some("-3".to_string()), None]
    );

    let no_text = evaluate(cast(col("a"), ArrowType::StringType)).unwrap();
    assert_eq!(read_texts(&no_text), vec![None, None, None, None]);
}

#[test]
fn a_cast_to_a_floating_point_type_fails() {
    assert!(matches!(
        evaluate(cast(col("a"), ArrowType::FloatType)),
        Err(QueryError::UnsupportedType(ArrowType::FloatType))
    ));
    assert!(matches!(
        evaluate(cast(col("s"), ArrowType::DoubleType)),
        Err(QueryError::UnsupportedType(ArrowType::DoubleType))
    ));
}

#[test]
fn values_convert_to_every_integer_type() {
    let big = ScalarValue::Int64(300);
    let negative = ScalarValue::Int32(-1);
    let written = text("65535");

    assert!(convert_to_i8(&big).is_none());
    assert!(matches!(convert_to_i16(&big), Some(ScalarValue::Int16(300))));
    assert!(matches!(convert_to_i32(&big), Some(ScalarValue::Int32(300))));
    assert!(matches!(convert_to_i64(&big), Some(ScalarValue::Int64(300))));
    assert!(convert_to_u8(&big).is_none());
    assert!(matches!(convert_to_u16(&big), Some(ScalarValue::UInt16(300))));
    assert!(matches!(convert_to_u32(&big), Some(ScalarValue::UInt32(300))));
    assert!(matches!(convert_to_u64(&big), Some(ScalarValue::UInt64(300))));

    assert!(matches!(convert_to_i8(&negative), Some(ScalarValue::Int8(-1))));
    assert!(convert_to_u8(&negative).is_none());
    assert!(convert_to_u16(&negative).is_none());
    assert!(convert_to_u32(&negative).is_none());
    assert!(convert_to_u64(&negative).is_none());

    assert!(matches!(convert_to_u16(&written), Some(ScalarValue::UInt16(65535))));
    assert!(convert_to_i16(&written).is_none());
    assert!(matches!(convert_to_i32(&written), Some(ScalarValue::Int32(65535))));

    assert!(convert_to_i64(&ScalarValue::Boolean(true)).is_none());
    assert!(matches!(
        convert(&text("true"), ArrowType::BooleanType),
        Some(ScalarValue::Boolean(true))
    ));
    assert!(convert(&ScalarValue::Int8(1), ArrowType::BooleanType).is_none());
    assert!(convert(&ScalarValue::Int8(1), ArrowType::DoubleType).is_none());
}

#[test]
fn a_cast_through_a_wider_type_is_the_cast() {
    let values = vec![
        ScalarValue::Int8(-128),
        ScalarValue::Int8(127),
        ScalarValue::UInt8(255),
        ScalarValue::Int16(-300),
        ScalarValue::UInt16(40000),
    ];
    let targets = vec![
        ArrowType::Int8Type,
        ArrowType::UInt8Type,
        ArrowType::Int16Type,
        ArrowType::UInt16Type,
        ArrowType::Int32Type,
        ArrowType::UInt64Type,
        ArrowType::StringType,
    ];
    for v in values.iter() {
        for through in [ArrowType::Int32Type, ArrowType::Int64Type] {
            let widened = convert(v, through).unwrap();
            for target in targets.iter() {
                match (convert(&widened, *target), convert(v, *target)) {
                    (Some(a), Some(b)) => assert!(a.equals(&b)),
                    (None, None) => {}
                    _ => panic!("the two casts differ"),
                }
            }
        }
    }
}

#[test]
fn comparisons_give_truth_values() {
    assert_eq!(
        read_bools(&evaluate(col("a").eq(lit_long(7))).unwrap()),
        vec![Some(true), Some(false), None, Some(false)]
    );
    assert_eq!(
        read_bools(&evaluate(col("a").neq(lit_long(7))).unwrap()),
        vec![Some(false), Some(true), None, Some(true)]
    );
    assert_eq!(
        read_bools(&evaluate(col("a").lt(col("b"))).unwrap()),
        vec![Some(false), Some(true), None, Some(false)]
    );
    assert_eq!(
        read_bools(&evaluate(col("b").lteq(lit_long(1))).unwrap()),
        vec![Some(false), Some(false), Some(true), Some(true)]
    );
    assert_eq!(
        read_bools(&evaluate(col("a").gt(col("b"))).unwrap()),
        vec![Some(true), Some(false), None, Some(true)]
    );
    assert_eq!(
        read_bools(&evaluate(col("b").gteq(lit_long(2))).unwrap()),
        vec![Some(true), Some(true), Some(false), Some(false)]
    );
}

#[test]
fn texts_compare_in_byte_order() {
    assert_eq!(
        read_bools(&evaluate(col("s").lt(lit_str("2"))).unwrap()),
        vec![Some(true), Some(false), Some(true), None]
    );
    assert_eq!(
        read_bools(&evaluate(col("s").gteq(lit_str("abc"))).unwrap()),
        vec![Some(false), Some(true), Some(false), None]
    );
    assert_eq!(
        read_bools(&evaluate(lit_str("Z").lt(lit_str("a"))).unwrap()),
        vec![Some(true); 4]
    );
    assert_eq!(
        read_bools(&evaluate(lit_str("ab").lt(lit_str("abc"))).unwrap()),
        vec![Some(true); 4]
    );
}

#[test]
fn truth_values_compare_and_connect() {
    assert_eq!(
        read_bools(&evaluate(and(col("t"), col("a").gt(lit_long(0)))).unwrap()),
        vec![Some(true), Some(false), None, Some(true)]
    );
    assert_eq!(
        read_bools(&evaluate(or(col("t"), col("b").eq(lit_long(2)))).unwrap()),
        vec![Some(true), Some(true), None, Some(true)]
    );
    assert_eq!(
        read_bools(&evaluate(col("t").lt(col("b").eq(lit_long(2)))).unwrap()),
        vec![Some(false), Some(true), None, Some(false)]
    );
}

#[test]
fn operands_of_different_types_fail() {
    assert!(matches!(
        evaluate(col("a").eq(col("s"))),
        Err(QueryError::TypeMismatch(ArrowType::Int64Type, ArrowType::StringType))
    ));
    assert!(matches!(
        evaluate(col("a").add(col("u"))),
        Err(QueryError::TypeMismatch(ArrowType::Int64Type, ArrowType::UInt8Type))
    ));
}

#[test]
fn operands_of_different_lengths_fail() {
    let b = RecordBatch {
        schema: Schema {
            fields: vec![field("a", ArrowType::Int64Type), field("s", ArrowType::StringType)],
        },
        fields: vec![longs(vec![Some(1), Some(2)]), texts(vec![Some("x")])],
    };
    let e = QueryPlanner::create_physical_expr(&col("a").eq(col("s")), &b.schema).unwrap();

    assert!(matches!(e.evaluate(&b), Err(QueryError::LengthMismatch(2, 1))));
}

#[test]
fn connectives_take_truth_values_only() {
    assert!(matches!(
        evaluate(and(col("a"), col("b"))),
        Err(QueryError::UnsupportedType(ArrowType::Int64Type))
    ));
    assert!(matches!(
        evaluate(or(col("s"), col("s"))),
        Err(QueryError::UnsupportedType(ArrowType::StringType))
    ));
}

#[test]
fn arithmetic_gives_numbers_of_the_type_of_the_operands() {
    assert_eq!(
        read_longs(&evaluate(col("b").add(col("b"))).unwrap()),
        vec![Some(4), Some(4), Some(2), Some(2)]
    );
    assert_eq!(
        read_longs(&evaluate(col("b").subtract(lit_long(5))).unwrap()),
        vec![Some(-3), Some(-3), Some(-4), Some(-4)]
    );
    assert_eq!(
        read_longs(&evaluate(col("b").mult(lit_long(-3))).unwrap()),
        vec![Some(-6), Some(-6), Some(-3), Some(-3)]
    );
    assert_eq!(
        read_longs(&evaluate(cast(col("s"), ArrowType::Int64Type).div(col("b"))).unwrap()),
        vec![Some(6), None, Some(-3), None]
    );
}

#[test]
fn division_rounds_towards_zero() {
    let b = RecordBatch {
        schema: Schema {
            fields: vec![field("x", ArrowType::Int64Type), field("y", ArrowType::Int64Type)],
        },
        fields: vec![
            longs(vec![Some(7), Some(-7), Some(7), Some(-7), Some(0)]),
            longs(vec![Some(2), Some(2), Some(-2), Some(-2), Some(5)]),
        ],
    };
    let quotient = QueryPlanner::create_physical_expr(&col("x").div(col("y")), &b.schema).unwrap();
    let remainder =
        QueryPlanner::create_physical_expr(&col("x").modulus(col("y")), &b.schema).unwrap();

    assert_eq!(
        read_longs(&quotient.evaluate(&b).unwrap()),
        vec![Some(3), Some(-3), Some(-3), Some(3), Some(0)]
    );
    assert_eq!(
        read_longs(&remainder.evaluate(&b).unwrap()),
        vec![Some(1), Some(-1), Some(1), Some(-1), Some(0)]
    );
}

#[test]
fn arithmetic_that_leaves_the_type_fails() {
    assert!(matches!(
        evaluate(col("a").add(lit_long(1))),
        Err(QueryError::ArithmeticFailure)
    ));
    assert!(matches!(
        evaluate(col("u").add(col("u"))),
        Err(QueryError::ArithmeticFailure)
    ));
    assert!(matches!(
        evaluate(col("u").subtract(cast(lit_long(1), ArrowType::UInt8Type))),
        Err(QueryError::ArithmeticFailure)
    ));
    assert!(matches!(
        evaluate(col("a").mult(col("a"))),
        Err(QueryError::ArithmeticFailure)
    ));
}

#[test]
fn division_by_zero_fails() {
    assert!(matches!(
        evaluate(col("b").div(lit_long(0))),
        Err(QueryError::ArithmeticFailure)
    ));
    assert!(matches!(
        evaluate(col("b").modulus(lit_long(0))),
        Err(QueryError::ArithmeticFailure)
    ));
}

#[test]
fn the_least_number_divided_by_minus_one_fails() {
    let b = RecordBatch {
        schema: Schema {
            fields: vec![field("x", ArrowType::Int64Type)],
        },
        fields: vec![longs(vec![Some(i64::MIN)])],
    };
    let quotient =
        QueryPlanner::create_physical_expr(&col("x").div(lit_long(-1)), &b.schema).unwrap();
    let remainder =
        QueryPlanner::create_physical_expr(&col("x").modulus(lit_long(-1)), &b.schema).unwrap();

    assert!(matches!(quotient.evaluate(&b), Err(QueryError::ArithmeticFailure)));
    assert!(matches!(remainder.evaluate(&b), Err(QueryError::ArithmeticFailure)));
}

#[test]
fn arithmetic_takes_integers_only() {
    assert!(matches!(
        evaluate(col("s").add(col("s"))),
        Err(QueryError::UnsupportedType(ArrowType::StringType))
    ));
    assert!(matches!(
        evaluate(col("t").mult(col("t"))),
        Err(QueryError::UnsupportedType(ArrowType::BooleanType))
    ));
}

#[test]
fn the_failure_of_the_left_operand_comes_first() {
    assert!(matches!(
        evaluate(col("b").div(lit_long(0)).eq(col("a").add(lit_long(1)).eq(col("s")))),
        Err(QueryError::ArithmeticFailure)
    ));
    assert!(matches!(
        evaluate(col("a").eq(col("s")).eq(col("b").div(lit_long(0)))),
        Err(QueryError::TypeMismatch(ArrowType::Int64Type, ArrowType::StringType))
    ));
}

#[test]
fn the_type_of_the_field_is_the_type_of_the_column() {
    let b = batch();
    let expressions = vec![
        col("a"),
        col_index(2),
        lit_long(3),
        lit_str("x"),
        cast(col("s"), ArrowType::UInt16Type),
        col("a").lteq(col("b")),
        and(col("t"), col("t")),
        col("b").mult(lit_long(2)),
        cast(col("s"), ArrowType::Int8Type).modulus(cast(col("b"), ArrowType::Int8Type)),
        alias(cast(col("u"), ArrowType::Int32Type), "n"),
    ];
    for e in expressions {
        let field = e.to_field_in(&b.schema).unwrap();
        let physical = QueryPlanner::create_physical_expr(&e, &b.schema).unwrap();
        let column = physical.evaluate(&b).unwrap();
        assert!(field.data_type == column.get_type());
        assert_eq!(column.size(), 4);
    }
}

#[test]
fn expressions_without_a_physical_form_fail_to_lower() {
    let schema = batch().schema;

    match QueryPlanner::create_physical_expr(&not(col("t")), &schema) {
        Err(QueryError::UnsupportedExpression(kind)) => assert_eq!(kind, "NOT t"),
        _ => panic!("a failure for the expression was expected"),
    }
    match QueryPlanner::create_physical_expr(&col("a").eq(max(col("b"))), &schema) {
        Err(QueryError::UnsupportedExpression(kind)) => assert_eq!(kind, "MAX(b)"),
        _ => panic!("a failure for the expression was expected"),
    }
    match QueryPlanner::create_physical_expr(&col("a").eq(col("z")), &schema) {
        Err(QueryError::UnknownColumn(name)) => assert_eq!(name, "z"),
        _ => panic!("a failure for the column was expected"),
    }
}

#[test]
fn a_filter_keeps_the_rows_that_are_true() {
    let selection = truths(vec![Some(true), Some(false), None, Some(true)]);

    let kept = filter(&batch().fields[0], &selection).unwrap();

    assert!(kept.get_type() == ArrowType::Int64Type);
    assert_eq!(read_longs(&kept), vec![Some(7), Some(i64::MAX)]);

    let texts = filter(&batch().fields[2], &selection).unwrap();
    assert_eq!(read_texts(&texts), vec![Some("12".to_string()), None]);
}

#[test]
fn a_filter_that_is_always_true_keeps_every_row() {
    let b = batch();
    let always = QueryPlanner::create_physical_expr(&lit_long(1).eq(lit_long(1)), &b.schema)
        .unwrap()
        .evaluate(&b)
        .unwrap();

    for column in b.fields.iter() {
        let kept = filter(column, &always).unwrap();
        assert_eq!(kept.size(), column.size());
        assert!(kept.get_type() == column.get_type());
        for i in 0..column.size() {
            match (kept.get_value(i), column.get_value(i)) {
                (Some(a), Some(b)) => assert!(a.equals(&b)),
                (None, None) => {}
                _ => panic!("the row {} has changed", i),
            }
        }
    }
}

#[test]
fn a_filter_that_is_never_true_gives_an_empty_column() {
    let selection = truths(vec![Some(false), None, Some(false), Some(false)]);

    let kept = filter(&batch().fields[2], &selection).unwrap();

    assert_eq!(kept.size(), 0);
    assert!(kept.get_type() == ArrowType::StringType);
}

#[test]
fn a_filter_over_a_constant_gives_an_arrow_column() {
    let constant = ColumnVector::Literal(LiteralValueVector {
        arrow_type: ArrowType::StringType,
        value: Some(text("x")),
        size: 3,
    });
    let selection = truths(vec![Some(true), Some(false), Some(true)]);

    let kept = filter(&constant, &selection).unwrap();

    assert!(matches!(kept, ColumnVector::Arrow(_)));
    assert_eq!(read_texts(&kept), vec![Some("x".to_string()), Some("x".to_string())]);
}

fn feed(accumulator: &mut Accumulator, values: Vec<Option<ScalarValue>>) -> Result<(), QueryError> {
    for v in values {
        accumulator.accumulate(v)?;
    }
    Ok(())
}

#[test]
fn a_sum_adds_what_is_not_null() {
    let mut sum = Accumulator::Sum(SumAccumulator::new(ArrowType::Int16Type));
    assert!(sum.final_value().is_none());

    feed(
        &mut sum,
        vec![None, Some(ScalarValue::Int16(5)), None, Some(ScalarValue::Int16(-7))],
    )
    .unwrap();

    assert!(matches!(sum.final_value(), Some(ScalarValue::Int16(-2))));
}

#[test]
fn a_sum_that_leaves_its_type_fails() {
    let mut sum = Accumulator::Sum(SumAccumulator::new(ArrowType::UInt8Type));
    feed(&mut sum, vec![Some(ScalarValue::UInt8(200))]).unwrap();

    assert!(matches!(
        sum.accumulate(Some(ScalarValue::UInt8(56))),
        Err(QueryError::ArithmeticFailure)
    ));
    assert!(matches!(sum.final_value(), Some(ScalarValue::UInt8(200))));
    sum.accumulate(Some(ScalarValue::UInt8(55))).unwrap();
    assert!(matches!(sum.final_value(), Some(ScalarValue::UInt8(255))));
}

#[test]
fn a_sum_takes_integers_of_its_type_only() {
    let mut sum = Accumulator::Sum(SumAccumulator::new(ArrowType::Int64Type));
    assert!(matches!(
        sum.accumulate(Some(ScalarValue::Int32(1))),
        Err(QueryError::TypeMismatch(ArrowType::Int64Type, ArrowType::Int32Type))
    ));

    let mut texts = Accumulator::Sum(SumAccumulator::new(ArrowType::StringType));
    assert!(matches!(
        texts.accumulate(Some(text("a"))),
        Err(QueryError::UnsupportedType(ArrowType::StringType))
    ));
    assert!(texts.accumulate(None).is_ok());
}

#[test]
fn the_greatest_and_the_least_follow_the_order_of_the_type() {
    let mut greatest = Accumulator::Max(MaxAccumulator::new(ArrowType::StringType));
    let mut least = Accumulator::Min(MinAccumulator::new(ArrowType::StringType));
    assert!(greatest.final_value().is_none());
    assert!(least.final_value().is_none());

    for a in [&mut greatest, &mut least] {
        feed(a, vec![Some(text("b")), None, Some(text("a")), Some(text("B")), Some(text("ab"))])
            .unwrap();
    }

    assert!(matches!(greatest.final_value(), Some(ScalarValue::Utf8(s)) if s == "b"));
    assert!(matches!(least.final_value(), Some(ScalarValue::Utf8(s)) if s == "B"));

    let mut numbers = Accumulator::Min(MinAccumulator::new(ArrowType::Int8Type));
    feed(
        &mut numbers,
        vec![Some(ScalarValue::Int8(3)), Some(ScalarValue::Int8(-3)), Some(ScalarValue::Int8(0))],
    )
    .unwrap();
    assert!(matches!(numbers.final_value(), Some(ScalarValue::Int8(-3))));
    assert!(matches!(
        numbers.accumulate(Some(ScalarValue::Int16(-9))),
        Err(QueryError::TypeMismatch(ArrowType::Int8Type, ArrowType::Int16Type))
    ));
}

#[test]
fn the_counts_count_what_is_not_null() {
    let mut all = Accumulator::Count(CountAccumulator::new());
    let mut different = Accumulator::CountDistinct(CountDistinctAccumulator::new());
    assert!(matches!(all.final_value(), Some(ScalarValue::Int32(0))));
    assert!(matches!(different.final_value(), Some(ScalarValue::Int32(0))));

    for a in [&mut all, &mut different] {
        feed(
            a,
            vec![
                Some(text("a")),
                None,
                Some(text("b")),
                Some(text("a")),
                Some(ScalarValue::Int8(1)),
                Some(ScalarValue::Int16(1)),
                Some(ScalarValue::Int8(1)),
            ],
        )
        .unwrap();
    }

    assert!(matches!(all.final_value(), Some(ScalarValue::Int32(6))));
    assert!(matches!(different.final_value(), Some(ScalarValue::Int32(4))));
}

fn employee_csv() -> Vec<u8> {
    "id,first_name,last_name,state,job_title,salary\n\
     1,Bill,Hopkins,CA,Manager,12000\n\
     2,Gregg,Langford,CO,Driver,10000\n\
     3,John,Travis,CO,Driver,11500\n\
     4,Von,Mill,CA,Manager,11500\n"
        .as_bytes()
        .to_vec()
}

fn employees(batch_size: &str) -> (ExecutionContext, DataFrame) {
    let ctx = ExecutionContext::new(vec![("csv.batch_size".to_string(), batch_size.to_string())]);
    let df = ctx.csv("testdata/employee.csv", employee_csv(), true).unwrap();
    (ctx, df)
}

#[test]
fn an_aggregate_folds_the_rows_of_all_batches() {
    let (ctx, df) = employees("3");
    let df = df.aggregate(
        vec![col("job_title"), col("state")],
        vec![
            count(col("id")),
            min(col("first_name")),
            max(cast(col("salary"), ArrowType::UInt32Type)),
        ],
    );

    let batches = ctx.execute(df, false).unwrap();

    assert_eq!(batches.len(), 1);
    assert_eq!(
        batches[0].schema.to_string(),
        "[job_title: StringType, state: StringType, COUNT: Int32Type, MIN: StringType, MAX: UInt32Type]"
    );
    assert_eq!(
        "Manager,CA,2,Bill,12000\nDriver,CO,2,Gregg,11500\n",
        batches[0].to_csv().unwrap()
    );
}

#[test]
fn an_aggregate_without_groups_has_one_row() {
    let (ctx, df) = employees("1024");
    let df = df.aggregate(
        vec![],
        vec![sum(cast(col("salary"), ArrowType::Int64Type)), count_distinct(col("state"))],
    );

    let batches = ctx.execute(df, true).unwrap();

    assert_eq!("45000,2\n", batches[0].to_csv().unwrap());
}

#[test]
fn an_aggregate_over_no_rows_has_no_rows() {
    let (ctx, df) = employees("1024");
    let df = df
        .filter(col("state").eq(lit_str("NY")))
        .aggregate(vec![col("state")], vec![count(col("id"))]);

    let batches = ctx.execute(df, false).unwrap();

    assert_eq!(batches.len(), 1);
    assert_eq!(batches[0].row_count(), 0);
    assert_eq!(batches[0].column_count(), 2);
}

#[test]
fn a_null_is_a_key_of_its_own() {
    let (ctx, df) = employees("1024");
    let key = cast(col("first_name"), ArrowType::Int8Type);
    let df = df.aggregate(vec![key], vec![count(col("id")), sum(cast(col("job_title"), ArrowType::Int8Type))]);

    let batches = ctx.execute(df, false).unwrap();
    let batch = &batches[0];

    assert_eq!(batch.row_count(), 1);
    assert!(batch.fields[0].get_value(0).is_none());
    assert!(matches!(batch.fields[1].get_value(0), Some(ScalarValue::Int32(4))));
    assert!(batch.fields[2].get_value(0).is_none());
}

#[test]
fn an_average_has_no_physical_form() {
    let (ctx, df) = employees("1024");
    let df = df.aggregate(vec![col("state")], vec![avg(col("salary"))]);

    match ctx.execute(df, false) {
        Err(QueryError::UnsupportedExpression(kind)) => assert_eq!(kind, "AVG(salary)"),
        _ => panic!("a failure for the expression was expected"),
    }
}

#[test]
fn a_sum_of_texts_fails() {
    let (ctx, df) = employees("1024");
    let df = df.aggregate(vec![col("state")], vec![sum(col("salary"))]);

    assert!(matches!(
        ctx.execute(df, false),
        Err(QueryError::UnsupportedType(ArrowType::StringType))
    ));
}

#[test]
fn a_limit_has_no_physical_form() {
    let (ctx, df) = employees("1024");
    let plan = LogicalPlan::Limit(Limit::new(df.into_logical_plan(), 2));

    match ctx.execute_logical_plan(plan) {
        Err(QueryError::UnsupportedPlan(kind)) => assert_eq!(kind, "Limit: 2"),
        _ => panic!("a failure for the plan was expected"),
    }
}

#[test]
fn a_projection_of_an_unknown_column_fails_to_lower() {
    let (ctx, df) = employees("1024");
    let df = df.project(vec![col("id"), col("town")]);

    match ctx.execute(df, false) {
        Err(QueryError::UnknownColumn(name)) => assert_eq!(name, "town"),
        _ => panic!("a failure for the column was expected"),
    }
}

#[test]
fn a_projection_onto_all_columns_keeps_schema_and_rows() {
    let (ctx, df) = employees("1024");
    let before = ctx
        .execute(ctx.csv("testdata/employee.csv", employee_csv(), true).unwrap(), false)
        .unwrap();
    let all: Vec<Expr> = df.schema().fields.iter().map(|f| col(&f.name)).collect();

    let projected = df.project(all);
    let schema = projected.schema().to_string();
    let after = ctx.execute(projected, false).unwrap();

    assert_eq!(
        schema,
        "[id: StringType, first_name: StringType, last_name: StringType, state: StringType, job_title: StringType, salary: StringType]"
    );
    assert_eq!(after[0].schema.to_string(), schema);
    assert_eq!(before[0].to_csv(), after[0].to_csv());
}

#[test]
fn a_selection_emits_empty_batches() {
    let (ctx, df) = employees("1");
    let df = df.filter(col("state").eq(lit_str("CO")));

    let batches = ctx.execute(df, false).unwrap();

    let rows: Vec<usize> = batches.iter().map(|b| b.row_count()).collect();
    assert_eq!(rows, vec![0, 1, 1, 0]);
    assert_eq!(batches[0].column_count(), 6);
}

#[test]
fn a_physical_plan_prints_its_operators() {
    let (_, df) = employees("1024");
    let df = df
        .filter(col("state").eq(lit_str("CO")))
        .project(vec![
            col("state"),
            alias(cast(col("salary"), ArrowType::Int64Type).add(lit_long(1)), "pay"),
        ])
        .aggregate(vec![col("state")], vec![sum(col("pay")), count_distinct(col("pay"))]);

    let plan = QueryPlanner::create_physical_plan(df.into_logical_plan()).unwrap();

    assert_eq!(
        plan.pretty(),
        "HashAggregateExec: groupExpr=0, aggrExpr=SUM(1), COUNT(DISTINCT 1)\n\
         \tProjectionExec: 3, CAST(5 AS Int64Type)+1\n\
         \t\tSelectionExec: 3 = CO\n\
         \t\t\tScanExec: schema=[id: StringType, first_name: StringType, last_name: StringType, state: StringType, job_title: StringType, salary: StringType], projection=[]\n"
    );
    assert_eq!(plan.children().len(), 1);
    assert_eq!(plan.children()[0].children()[0].children()[0].children().len(), 0);
}

#[test]
fn a_physical_plan_declares_its_schema() {
    let (ctx, df) = employees("2");
    let df = df
        .filter(col("state").eq(lit_str("CO")))
        .project(vec![alias(cast(col("salary"), ArrowType::Int64Type), "pay"), col("state")]);
    let logical = df.schema().to_string();

    let plan = QueryPlanner::create_physical_plan(df.into_logical_plan()).unwrap();

    assert_eq!(plan.schema().unwrap().to_string(), logical);
    assert_eq!(plan.children()[0].schema().unwrap().fields.len(), 6);
    for batch in plan.execute().unwrap() {
        assert!(batch.is_well_formed());
        assert_eq!(batch.schema.to_string(), logical);
    }
    let _ = ctx;
}

#[test]
fn every_batch_of_an_aggregation_is_well_formed() {
    let (ctx, df) = employees("3");
    let df = df.aggregate(
        vec![col("state"), cast(col("id"), ArrowType::UInt8Type)],
        vec![count(col("id")), max(col("last_name")), sum(cast(col("salary"), ArrowType::Int32Type))],
    );
    let logical = df.schema().to_string();

    let batches = ctx.execute(df, true).unwrap();

    assert_eq!(batches.len(), 1);
    assert!(batches[0].is_well_formed());
    assert_eq!(batches[0].schema.to_string(), logical);
    assert_eq!(batches[0].row_count(), 4);
}

#[test]
fn a_floating_point_literal_has_no_physical_form() {
    let (ctx, df) = employees("1024");
    let df = df.project(vec![col("salary").mult(lit_double("0.1"))]);

    match ctx.execute(df, false) {
        Err(QueryError::UnsupportedType(t)) => assert_eq!(t, ArrowType::DoubleType),
        _ => panic!("a failure for the type was expected"),
    }

    let (_, df) = employees("1024");
    let schema = df.schema();
    match QueryPlanner::create_physical_expr(&lit_float("1.5"), &schema) {
        Err(QueryError::UnsupportedType(t)) => assert_eq!(t, ArrowType::FloatType),
        _ => panic!("a failure for the type was expected"),
    }
}
