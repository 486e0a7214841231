use rs_query::datatypes::arrow_types::ArrowType;
use rs_query::datatypes::arrow_vector_builder::{
    build_vector, ArrowArrayFactory, ArrowVectorBuilder,
};
use rs_query::datatypes::column_vector::ColumnVector;
use rs_query::datatypes::literal_value_vector::LiteralValueVector;
use rs_query::datatypes::record_batch::RecordBatch;
use rs_query::datatypes::scalar::ScalarValue;
use rs_query::datatypes::schema::{Field, Schema};
use rs_query::error::QueryError;

fn create_test_i64_column_vector(values: Vec<ScalarValue>) -> ColumnVector {
    let field_vector_builder = ArrowArrayFactory::create(ArrowType::Int64Type, values.len()).unwrap();
    let mut builder = ArrowVectorBuilder::new(field_vector_builder);

    for v in values {
        builder.append(Some(v)).unwrap();
    }
    builder.build()
}

fn text(s: &str) -> ScalarValue {
    ScalarValue::Utf8(s.to_string())
}

#[test]
fn test_size() {
    let column_vector = create_test_i64_column_vector(vec![
        ScalarValue::Int32(12),
        ScalarValue::Int32(12),
        text("12"),
    ]);

    let size = column_vector.size();

    assert_eq!(size, 3);
}

#[test]
fn test_get_value() {
    let column_vector = create_test_i64_column_vector(vec![ScalarValue::Int32(12), text("77")]);

    let third_value = match column_vector.get_value(1).unwrap() {
        ScalarValue::Int64(v) => v,
        _ => panic!("a 64-bit integer was expected"),
    };

    assert_eq!(third_value, 77);
}

#[test]
fn test_get_type() {
    let column_vector = create_test_i64_column_vector(vec![ScalarValue::Int32(12)]);

    let data_type = column_vector.get_type();

    assert!(data_type == ArrowType::Int64Type)
}

#[test]
fn test_builder() {
    let field_vector_builder = ArrowArrayFactory::create(ArrowType::Int64Type, 5).unwrap();
    let mut builder = ArrowVectorBuilder::new(field_vector_builder);

    builder.append(Some(ScalarValue::Int32(12))).unwrap();
    builder.append(Some(ScalarValue::Int32(122))).unwrap();
    builder.append(Some(text("22"))).unwrap();

    let column_vector = builder.build();
    let third_value = match column_vector.get_value(2).unwrap() {
        ScalarValue::Int64(v) => v,
        _ => panic!("a 64-bit integer was expected"),
    };

    assert_eq!(third_value, 22);
}

#[test]
fn test_display_schema() {
    let field1 = Field {
        name: "test1".to_string(),
        data_type: ArrowType::StringType,
    };
    let field2 = Field {
        name: "test2".to_string(),
        data_type: ArrowType::Int64Type,
    };
    let schema = Schema {
        fields: vec![field1, field2],
    };

    assert_eq!("[test1: StringType, test2: Int64Type]", schema.to_string());
}

#[test]
fn a_value_of_another_type_becomes_a_null() {
    let column_vector = create_test_i64_column_vector(vec![
        ScalarValue::Int32(12),
        ScalarValue::Int64(13),
        ScalarValue::Boolean(true),
    ]);

    assert!(column_vector.get_value(0).is_none());
    assert!(matches!(column_vector.get_value(1), Some(ScalarValue::Int64(13))));
    assert!(column_vector.get_value(2).is_none());
    assert!(column_vector.get_value(3).is_none());
}

fn round_trip(t: ArrowType, values: Vec<Option<ScalarValue>>) -> ColumnVector {
    let column = build_vector(t, &values).unwrap();
    assert_eq!(column.size(), values.len());
    assert!(column.get_type() == t);
    for (i, v) in values.iter().enumerate() {
        match (v, column.get_value(i)) {
            (Some(a), Some(b)) => assert!(a.equals(&b)),
            (None, None) => {}
            _ => panic!("the value at {} is not the value that was appended", i),
        }
    }
    assert!(column.get_value(values.len()).is_none());
    column
}

#[test]
fn every_type_holds_what_was_appended() {
    round_trip(
        ArrowType::BooleanType,
        vec![Some(ScalarValue::Boolean(true)), None, Some(ScalarValue::Boolean(false))],
    );
    round_trip(
        ArrowType::Int8Type,
        vec![Some(ScalarValue::Int8(-128)), None, Some(ScalarValue::Int8(127))],
    );
    round_trip(
        ArrowType::Int16Type,
        vec![Some(ScalarValue::Int16(-32768)), None, Some(ScalarValue::Int16(32767))],
    );
    round_trip(
        ArrowType::Int32Type,
        vec![Some(ScalarValue::Int32(i32::MIN)), None, Some(ScalarValue::Int32(i32::MAX))],
    );
    round_trip(
        ArrowType::Int64Type,
        vec![Some(ScalarValue::Int64(i64::MIN)), None, Some(ScalarValue::Int64(i64::MAX))],
    );
    round_trip(
        ArrowType::UInt8Type,
        vec![Some(ScalarValue::UInt8(0)), None, Some(ScalarValue::UInt8(255))],
    );
    round_trip(
        ArrowType::UInt16Type,
        vec![Some(ScalarValue::UInt16(7)), None, Some(ScalarValue::UInt16(65535))],
    );
    round_trip(
        ArrowType::UInt32Type,
        vec![Some(ScalarValue::UInt32(7)), None, Some(ScalarValue::UInt32(u32::MAX))],
    );
    round_trip(
        ArrowType::UInt64Type,
        vec![Some(ScalarValue::UInt64(7)), None, Some(ScalarValue::UInt64(u64::MAX))],
    );
    round_trip(
        ArrowType::StringType,
        vec![Some(text("a")), None, Some(text("")), Some(text("žluťoučký"))],
    );
}

#[test]
fn a_shared_column_holds_the_same_values() {
    let column = round_trip(
        ArrowType::Int16Type,
        vec![Some(ScalarValue::Int16(5)), None, Some(ScalarValue::Int16(-5))],
    );

    let shared = column.share();

    assert_eq!(shared.size(), 3);
    assert!(matches!(shared.get_value(0), Some(ScalarValue::Int16(5))));
    assert!(shared.get_value(1).is_none());
    assert!(matches!(shared.get_value(2), Some(ScalarValue::Int16(-5))));
}

#[test]
fn texts_are_parsed_into_the_type_of_the_builder() {
    let values = vec![
        Some(text("12")),
        Some(text("+12")),
        Some(text("-12")),
        Some(text("012")),
        Some(text("")),
        Some(text("-")),
        Some(text(" 12")),
        Some(text("12.0")),
        Some(text("128")),
        Some(text("-128")),
        Some(text("-129")),
    ];
    let column = build_vector(ArrowType::Int8Type, &values).unwrap();

    let read: Vec<Option<i8>> = (0..values.len())
        .map(|i| match column.get_value(i) {
            Some(ScalarValue::Int8(v)) => Some(v),
            None => None,
            _ => panic!("an 8-bit integer was expected"),
        })
        .collect();
    assert_eq!(
        read,
        vec![
            Some(12),
            Some(12),
            Some(-12),
            Some(12),
            None,
            None,
            None,
            None,
            None,
            Some(-128),
            None
        ]
    );
}

#[test]
fn an_unsigned_type_takes_no_minus_sign() {
    let values = vec![Some(text("-0")), Some(text("+0")), Some(text("255")), Some(text("256"))];
    let column = build_vector(ArrowType::UInt8Type, &values).unwrap();

    assert!(column.get_value(0).is_none());
    assert!(matches!(column.get_value(1), Some(ScalarValue::UInt8(0))));
    assert!(matches!(column.get_value(2), Some(ScalarValue::UInt8(255))));
    assert!(column.get_value(3).is_none());
}

#[test]
fn texts_are_parsed_into_truth_values() {
    let values = vec![Some(text("true")), Some(text("false")), Some(text("TRUE")), Some(text("1"))];
    let column = build_vector(ArrowType::BooleanType, &values).unwrap();

    assert!(matches!(column.get_value(0), Some(ScalarValue::Boolean(true))));
    assert!(matches!(column.get_value(1), Some(ScalarValue::Boolean(false))));
    assert!(column.get_value(2).is_none());
    assert!(column.get_value(3).is_none());
}

#[test]
fn the_floating_point_types_have_no_builder() {
    assert!(matches!(
        ArrowArrayFactory::create(ArrowType::FloatType, 4),
        Err(QueryError::UnsupportedType(ArrowType::FloatType))
    ));
    assert!(matches!(
        ArrowArrayFactory::create(ArrowType::DoubleType, 4),
        Err(QueryError::UnsupportedType(ArrowType::DoubleType))
    ));
}

#[test]
fn a_large_capacity_is_only_a_hint() {
    let array = ArrowArrayFactory::create(ArrowType::Int64Type, usize::MAX).unwrap();
    let mut builder = ArrowVectorBuilder::new(array);
    builder.append(Some(ScalarValue::Int64(1))).unwrap();

    assert_eq!(builder.build().size(), 1);
}

#[test]
fn a_literal_vector_repeats_its_value() {
    let vector = LiteralValueVector {
        arrow_type: ArrowType::Int64Type,
        value: Some(ScalarValue::Int64(7)),
        size: 3,
    };

    assert_eq!(vector.size(), 3);
    assert!(vector.get_type() == ArrowType::Int64Type);
    assert!(matches!(vector.get_value(0), Some(ScalarValue::Int64(7))));
    assert!(matches!(vector.get_value(2), Some(ScalarValue::Int64(7))));
    assert!(vector.get_value(3).is_none());
}

fn people() -> RecordBatch {
    let schema = Schema {
        fields: vec![
            Field {
                name: "name".to_string(),
                data_type: ArrowType::StringType,
            },
            Field {
                name: "n".to_string(),
                data_type: ArrowType::Int32Type,
            },
        ],
    };
    let names = build_vector(
        ArrowType::StringType,
        &vec![Some(text("Bill")), Some(text("Gregg")), Some(text("ö"))],
    )
    .unwrap();
    let numbers = build_vector(
        ArrowType::Int32Type,
        &vec![
            Some(ScalarValue::Int32(1)),
            Some(ScalarValue::Int32(-20000)),
            Some(ScalarValue::Int32(3)),
        ],
    )
    .unwrap();
    RecordBatch {
        schema,
        fields: vec![names, numbers],
    }
}

#[test]
fn a_batch_counts_its_rows_and_columns() {
    let batch = people();

    assert_eq!(batch.row_count(), 3);
    assert_eq!(batch.column_count(), 2);
    assert_eq!(batch.field(1).size(), 3);
    assert!(batch.field(1).get_type() == ArrowType::Int32Type);
}

#[test]
fn a_batch_prints_as_csv() {
    assert_eq!("Bill,1\nGregg,-20000\nö,3\n", people().to_csv().unwrap());
}

#[test]
fn a_batch_prints_as_a_table() {
    assert_eq!(
        "|name |n     |\n|-----|------|\n|Bill |1     |\n|Gregg|-20000|\n|ö    |3     |\n",
        people().show().unwrap()
    );
}

#[test]
fn a_table_is_as_wide_as_the_bytes_of_its_texts() {
    let schema = Schema {
        fields: vec![Field {
            name: "n".to_string(),
            data_type: ArrowType::StringType,
        }],
    };
    let names = build_vector(ArrowType::StringType, &vec![Some(text("öö")), Some(text("abc"))]).unwrap();
    let batch = RecordBatch {
        schema,
        fields: vec![names],
    };

    assert_eq!("|n   |\n|----|\n|öö  |\n|abc |\n", batch.show().unwrap());
}

#[test]
fn a_batch_with_a_null_prints_nothing() {
    let schema = Schema {
        fields: vec![Field {
            name: "n".to_string(),
            data_type: ArrowType::Int32Type,
        }],
    };
    let numbers = build_vector(ArrowType::Int32Type, &vec![Some(ScalarValue::Int32(1)), None]).unwrap();
    let batch = RecordBatch {
        schema,
        fields: vec![numbers],
    };

    assert!(batch.to_csv().is_none());
    assert!(batch.show().is_none());
}

#[test]
fn a_value_of_another_type_than_its_field_has_no_text() {
    assert_eq!(
        RecordBatch::value_to_string(&ScalarValue::Int32(5), &ArrowType::Int32Type),
        Some("5".to_string())
    );
    assert_eq!(
        RecordBatch::value_to_string(&ScalarValue::Boolean(false), &ArrowType::BooleanType),
        Some("false".to_string())
    );
    assert_eq!(
        RecordBatch::value_to_string(&ScalarValue::Int32(5), &ArrowType::Int64Type),
        None
    );
}

#[test]
fn a_batch_without_columns_has_no_rows_to_print() {
    let batch = RecordBatch {
        schema: Schema { fields: vec![] },
        fields: vec![],
    };

    assert_eq!(batch.to_csv(), Some(String::new()));
    assert_eq!(batch.show(), Some("||\n||\n".to_string()));
}

#[test]
fn a_schema_projects_and_selects() {
    let schema = people().schema;

    assert_eq!(schema.project(vec![1, 0, 1]).to_string(), "[n: Int32Type, name: StringType, n: Int32Type]");
    assert_eq!(
        schema.select(vec!["n", "name"]).unwrap().to_string(),
        "[n: Int32Type, name: StringType]"
    );
    match schema.select(vec!["n", "age", "size"]) {
        Err(QueryError::UnknownField(name)) => assert_eq!(name, "age"),
        _ => panic!("a failure for the field was expected"),
    }
}

#[test]
fn a_name_finds_its_first_field() {
    let schema = Schema {
        fields: vec![
            Field {
                name: "a".to_string(),
                data_type: ArrowType::Int8Type,
            },
            Field {
                name: "b".to_string(),
                data_type: ArrowType::Int16Type,
            },
            Field {
                name: "a".to_string(),
                data_type: ArrowType::Int32Type,
            },
        ],
    };

    assert_eq!(schema.index_of("a"), Some(0));
    assert_eq!(schema.index_of("b"), Some(1));
    assert_eq!(schema.index_of("A"), None);
    assert_eq!(schema.select(vec!["a"]).unwrap().to_string(), "[a: Int8Type]");
}

#[test]
fn every_type_has_its_name() {
    let names: Vec<&str> = vec![
        ArrowType::BooleanType,
        ArrowType::Int8Type,
        ArrowType::Int16Type,
        ArrowType::Int32Type,
        ArrowType::Int64Type,
        ArrowType::UInt8Type,
        ArrowType::UInt16Type,
        ArrowType::UInt32Type,
        ArrowType::UInt64Type,
        ArrowType::FloatType,
        ArrowType::DoubleType,
        ArrowType::StringType,
    ]
    .iter()
    .map(|t| t.name())
    .collect();

    assert_eq!(
        names,
        vec![
            "BooleanType",
            "Int8Type",
            "Int16Type",
            "Int32Type",
            "Int64Type",
            "UInt8Type",
            "UInt16Type",
            "UInt32Type",
            "UInt64Type",
            "FloatType",
            "DoubleType",
            "StringType"
        ]
    );
}

#[test]
fn a_batch_knows_whether_it_is_well_formed() {
    assert!(people().is_well_formed());

    let mut short = people();
    short.fields.pop();
    assert!(!short.is_well_formed());

    let mut ragged = people();
    ragged.fields[1] = build_vector(ArrowType::Int32Type, &vec![Some(ScalarValue::Int32(1))]).unwrap();
    assert!(!ragged.is_well_formed());

    let mut mistyped = people();
    mistyped.schema.fields[1].data_type = ArrowType::Int64Type;
    assert!(!mistyped.is_well_formed());

    let empty = RecordBatch {
        schema: Schema { fields: vec![] },
        fields: vec![],
    };
    assert!(empty.is_well_formed());
}
