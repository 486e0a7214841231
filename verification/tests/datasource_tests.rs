use rs_query::datasource::csv_data_source::{CsvDataSource, RecordEnd, Trimming};
use rs_query::datasource::Source;
use rs_query::datatypes::arrow_types::ArrowType;
use rs_query::datatypes::arrow_vector_builder::build_vector;
use rs_query::datatypes::record_batch::RecordBatch;
use rs_query::datatypes::scalar::ScalarValue;
use rs_query::datatypes::schema::{Field, Schema};
use rs_query::error::QueryError;

fn employee_rows() -> &'static str {
    "1,Bill,Hopkins,CA,Manager,12000\n\
     2,Gregg,Langford,CO,Driver,10000\n\
     3,John,Travis,CO,Driver,11500\n\
     4,Von,Mill,CA,Manager,11500\n"
}

fn employee_csv() -> Vec<u8> {
    format!(
        "id,first_name,last_name,state,job_title,salary\n{}",
        employee_rows()
    )
    .into_bytes()
}

fn employee_no_header_csv() -> Vec<u8> {
    employee_rows().as_bytes().to_vec()
}

#[test]
fn test_read_csv_with_header() {
    let ds = Source::from_csv("testdata/employee.csv", employee_csv(), None, true, 1024).unwrap();
    let batches = ds.scan(vec![]).unwrap();
    let result = batches.first().unwrap();

    assert_eq!(ds.schema().fields.len(), 6);
    assert_eq!(ds.schema().fields.get(3).unwrap().name, "state");
    assert_eq!(result.row_count(), 4);
    assert_eq!(result.fields.len(), 6);
}

#[test]
fn test_read_csv_without_header() {
    let ds = Source::from_csv(
        "testdata/employee_no_header.csv",
        employee_no_header_csv(),
        None,
        false,
        1024,
    )
    .unwrap();
    let batches = ds.scan(vec![]).unwrap();
    let result = batches.first().unwrap();

    assert_eq!(ds.schema().fields.len(), 6);
    assert_eq!(ds.schema().fields.get(3).unwrap().name, "field_3");
    assert_eq!(result.row_count(), 4);
    assert_eq!(result.fields.len(), 6);
}

#[test]
fn test_read_csv_projection_with_header() {
    let ds = Source::from_csv("testdata/employee.csv", employee_csv(), None, true, 1024).unwrap();
    let projection = vec!["id", "state", "salary"];
    let batches = ds.scan(projection).unwrap();
    let result = batches.first().unwrap();

    // schema must not be touched by projection
    assert_eq!(ds.schema().fields.len(), 6);
    assert_eq!(ds.schema().fields.get(3).unwrap().name, "state");
    assert_eq!(result.row_count(), 4);
    assert_eq!(result.fields.len(), 3);
    // actual read schema after projection
    assert_eq!(result.schema.fields.len(), 3);
    assert_eq!(result.schema.fields.get(1).unwrap().name, "state");
}

#[test]
fn test_read_csv_projection_without_header() {
    let ds = Source::from_csv(
        "testdata/employee_no_header.csv",
        employee_no_header_csv(),
        None,
        false,
        1024,
    )
    .unwrap();
    let projection = vec!["field_0", "field_3", "field_5"];
    let batches = ds.scan(projection).unwrap();
    let result = batches.first().unwrap();

    // schema must not be touched by projection
    assert_eq!(ds.schema().fields.len(), 6);
    assert_eq!(ds.schema().fields.get(3).unwrap().name, "field_3");
    assert_eq!(result.row_count(), 4);
    assert_eq!(result.fields.len(), 3);
    // actual read schema after projection
    assert_eq!(result.schema.fields.len(), 3);
    assert_eq!(result.schema.fields.get(1).unwrap().name, "field_3");
}

fn employee_schema() -> Schema {
    let field0 = Field {
        name: "id".to_string(),
        data_type: ArrowType::UInt16Type,
    };
    let field1 = Field {
        name: "first_name".to_string(),
        data_type: ArrowType::StringType,
    };
    let field2 = Field {
        name: "last_name".to_string(),
        data_type: ArrowType::StringType,
    };
    let field3 = Field {
        name: "state".to_string(),
        data_type: ArrowType::StringType,
    };
    let field4 = Field {
        name: "job_title".to_string(),
        data_type: ArrowType::StringType,
    };
    let field5 = Field {
        name: "salary".to_string(),
        data_type: ArrowType::Int64Type,
    };
    Schema {
        fields: vec![field0, field1, field2, field3, field4, field5],
    }
}

#[test]
fn test_read_csv_with_provided_schema() {
    let ds = Source::from_csv(
        "testdata/employee.csv",
        employee_csv(),
        Some(employee_schema()),
        true,
        1024,
    )
    .unwrap();
    let batches = ds.scan(vec![]).unwrap();
    let result = batches.first().unwrap();

    assert_eq!(ds.schema().fields.len(), 6);
    assert_eq!(ds.schema().fields.get(3).unwrap().name, "state");
    assert_eq!(result.row_count(), 4);
    assert_eq!(result.fields.len(), 6);
    assert_eq!(
        result.schema.fields.get(5).unwrap().data_type,
        ArrowType::Int64Type
    );
    let uint_val = match result.fields.get(0).unwrap().get_value(1).unwrap() {
        ScalarValue::UInt16(v) => v,
        _ => panic!("a 16-bit unsigned integer was expected"),
    };
    let int_val = match result.fields.get(5).unwrap().get_value(0).unwrap() {
        ScalarValue::Int64(v) => v,
        _ => panic!("a 64-bit integer was expected"),
    };

    assert_eq!(uint_val, 2);
    assert_eq!(int_val, 12000);
}

#[test]
fn test_read_csv_with_small_batch_size() {
    let ds = Source::from_csv("testdata/employee.csv", employee_csv(), None, true, 1).unwrap();

    let batches: Vec<RecordBatch> = ds.scan(vec![]).unwrap();

    assert_eq!(batches.len(), 4);
    assert_eq!(batches.first().unwrap().row_count(), 1)
}

#[test]
fn the_last_batch_may_be_shorter() {
    let ds = Source::from_csv("testdata/employee.csv", employee_csv(), None, true, 3).unwrap();

    let batches = ds.scan(vec![]).unwrap();

    assert_eq!(batches.len(), 2);
    assert_eq!(batches[0].row_count(), 3);
    assert_eq!(batches[1].row_count(), 1);
    assert_eq!("4,Von,Mill,CA,Manager,11500\n", batches[1].to_csv().unwrap());
}

#[test]
fn an_empty_file_yields_no_batches() {
    let ds = Source::from_csv("empty.csv", Vec::new(), Some(employee_schema()), true, 1024).unwrap();

    assert_eq!(ds.scan(vec![]).unwrap().len(), 0);
}

#[test]
fn a_batch_size_of_zero_yields_no_batches() {
    let ds = Source::from_csv("testdata/employee.csv", employee_csv(), None, true, 0).unwrap();

    assert_eq!(ds.scan(vec![]).unwrap().len(), 0);
}

#[test]
fn fields_are_trimmed_and_any_line_ending_ends_a_record() {
    let content = "a, b\r\n 1 ,x\r 2,  y  \n".as_bytes().to_vec();
    let ds = Source::from_csv("spaced.csv", content, None, true, 1024).unwrap();

    assert_eq!(ds.schema().to_string(), "[a: StringType, b: StringType]");
    let batches = ds.scan(vec![]).unwrap();
    assert_eq!("1,x\n2,y\n", batches[0].to_csv().unwrap());
}

#[test]
fn malformed_records_are_skipped() {
    let content = "a,b\n1,x\n2\n3,z\n".as_bytes().to_vec();
    let ds = Source::from_csv("ragged.csv", content, None, true, 1024).unwrap();

    let batches = ds.scan(vec![]).unwrap();

    assert_eq!(batches.len(), 1);
    assert_eq!("1,x\n3,z\n", batches[0].to_csv().unwrap());
}

#[test]
fn a_malformed_record_takes_no_place_in_a_batch() {
    let content = "a,b\n1,x\n2\n3,z\n4\n5\n6,u\n".as_bytes().to_vec();
    let ds = Source::from_csv("ragged.csv", content, None, true, 2).unwrap();

    let batches = ds.scan(vec![]).unwrap();

    assert_eq!(batches.len(), 2);
    assert_eq!("1,x\n3,z\n", batches[0].to_csv().unwrap());
    assert_eq!("6,u\n", batches[1].to_csv().unwrap());

    let content = "a,b\n1,x\n2\n3,z\n".as_bytes().to_vec();
    let one_by_one = Source::from_csv("ragged.csv", content, None, true, 1).unwrap();
    let batches = one_by_one.scan(vec![]).unwrap();
    assert_eq!(batches.len(), 2);
    assert_eq!("1,x\n", batches[0].to_csv().unwrap());
    assert_eq!("3,z\n", batches[1].to_csv().unwrap());
}

fn record(fields: &[&str]) -> Option<Vec<String>> {
    Some(fields.iter().map(|f| f.to_string()).collect())
}

#[test]
fn a_first_record_gives_the_schema() {
    let headers: Vec<String> = vec!["id".to_string(), "first name".to_string()];

    assert_eq!(
        CsvDataSource::header_schema(&headers, true).to_string(),
        "[id: StringType, first name: StringType]"
    );
    assert_eq!(
        CsvDataSource::header_schema(&headers, false).to_string(),
        "[field_0: StringType, field_1: StringType]"
    );
    assert_eq!(CsvDataSource::header_schema(&Vec::new(), true).fields.len(), 0);
}

#[test]
fn the_format_is_commas_trimmed_and_any_line_ending() {
    let format = CsvDataSource::format(true);

    assert!(format.has_headers);
    assert_eq!(format.delimiter, b',');
    assert!(matches!(format.terminator, RecordEnd::CRLF));
    assert!(matches!(format.trim, Trimming::All));
    assert!(!CsvDataSource::format(false).has_headers);
}

#[test]
fn records_become_batches_of_the_batch_size() {
    let ds = CsvDataSource::new("t.csv", Vec::new(), Some(employee_schema()), true, 2).unwrap();
    let records = vec![
        record(&["1", "Bill", "Hopkins", "CA", "Manager", "12000"]),
        None,
        record(&["2", "Gregg", "Langford", "CO", "Driver", "10000"]),
        None,
        None,
        record(&["3", "John", "Travis", "CO", "Driver", "11500"]),
    ];

    let kept = CsvDataSource::kept_records(&records);
    assert_eq!(kept.len(), 3);
    assert_eq!(kept[1][1], "Gregg");

    let read = ds.schema().select(vec!["last_name", "id"]).unwrap();
    let batches = ds.batches(&read, &records).unwrap();
    assert_eq!(batches.len(), 2);
    assert_eq!(batches[0].row_count(), 2);
    assert_eq!(batches[1].row_count(), 1);
    assert_eq!(batches[0].schema.to_string(), read.to_string());
    assert!(matches!(batches[1].fields[1].get_value(0), Some(ScalarValue::UInt16(3))));

    let batch = ds.create_batch(&read, &kept).unwrap();
    assert_eq!(batch.row_count(), 3);
    assert!(matches!(batch.fields[0].get_value(2), Some(ScalarValue::Utf8(s)) if s == "Travis"));

    assert_eq!(ds.batches(&read, &vec![None, None]).unwrap().len(), 0);
}

#[test]
fn a_text_that_writes_no_number_becomes_a_null() {
    let content = "id,salary\n1,12000\n2,much\n".as_bytes().to_vec();
    let schema = Schema {
        fields: vec![
            Field {
                name: "id".to_string(),
                data_type: ArrowType::UInt8Type,
            },
            Field {
                name: "salary".to_string(),
                data_type: ArrowType::Int32Type,
            },
        ],
    };
    let ds = Source::from_csv("t.csv", content, Some(schema), true, 1024).unwrap();

    let batches = ds.scan(vec![]).unwrap();
    let salary = &batches[0].fields[1];

    assert_eq!(salary.size(), 2);
    assert!(matches!(salary.get_value(0), Some(ScalarValue::Int32(12000))));
    assert!(salary.get_value(1).is_none());
    assert!(batches[0].to_csv().is_none());
}

#[test]
fn a_column_of_a_floating_point_type_is_not_read() {
    let content = "x\n1.5\n".as_bytes().to_vec();
    let schema = Schema {
        fields: vec![Field {
            name: "x".to_string(),
            data_type: ArrowType::DoubleType,
        }],
    };
    let ds = Source::from_csv("t.csv", content, Some(schema), true, 1024).unwrap();

    assert!(matches!(
        ds.scan(vec![]),
        Err(QueryError::UnsupportedType(ArrowType::DoubleType))
    ));
}

#[test]
fn a_scan_of_an_unknown_field_fails() {
    let ds = Source::from_csv("testdata/employee.csv", employee_csv(), None, true, 1024).unwrap();

    match ds.scan(vec!["state", "town", "street"]) {
        Err(QueryError::UnknownField(name)) => assert_eq!(name, "town"),
        _ => panic!("a failure for the field was expected"),
    }
}

fn numbers(values: Vec<i64>) -> rs_query::datatypes::column_vector::ColumnVector {
    let values: Vec<Option<ScalarValue>> = values
        .into_iter()
        .map(|v| Some(ScalarValue::Int64(v)))
        .collect();
    build_vector(ArrowType::Int64Type, &values).unwrap()
}

fn in_memory() -> Source {
    let schema = Schema {
        fields: vec![
            Field {
                name: "a".to_string(),
                data_type: ArrowType::Int64Type,
            },
            Field {
                name: "b".to_string(),
                data_type: ArrowType::Int64Type,
            },
        ],
    };
    let batch = RecordBatch {
        schema: schema.clone(),
        fields: vec![numbers(vec![1, 2]), numbers(vec![10, 20])],
    };
    Source::from_in_memory(schema, vec![batch])
}

#[test]
fn an_in_memory_scan_without_projection_gives_all_columns() {
    let batches = in_memory().scan(vec![]).unwrap();

    assert_eq!(batches.len(), 1);
    assert_eq!("1,10\n2,20\n", batches[0].to_csv().unwrap());
}

#[test]
fn an_in_memory_scan_projects_by_name() {
    let batches = in_memory().scan(vec!["b", "a"]).unwrap();

    assert_eq!(batches[0].schema.to_string(), "[b: Int64Type, a: Int64Type]");
    assert_eq!("10,1\n20,2\n", batches[0].to_csv().unwrap());
}

#[test]
fn an_in_memory_scan_of_an_unknown_field_fails() {
    match in_memory().scan(vec!["c"]) {
        Err(QueryError::UnknownField(name)) => assert_eq!(name, "c"),
        _ => panic!("a failure for the field was expected"),
    }
}

#[test]
fn an_in_memory_batch_with_too_few_columns_fails() {
    let schema = Schema {
        fields: vec![
            Field {
                name: "a".to_string(),
                data_type: ArrowType::Int64Type,
            },
            Field {
                name: "b".to_string(),
                data_type: ArrowType::Int64Type,
            },
        ],
    };
    let batch = RecordBatch {
        schema: schema.clone(),
        fields: vec![numbers(vec![1, 2])],
    };
    let source = Source::from_in_memory(schema, vec![batch]);

    assert!(matches!(
        source.scan(vec!["a"]),
        Err(QueryError::IndexOutOfRange(1))
    ));
}

#[test]
fn to_csv_read_back_gives_the_values() {
    let ds = Source::from_csv("testdata/employee.csv", employee_csv(), None, true, 1024).unwrap();
    let batches = ds.scan(vec![]).unwrap();
    let text = batches[0].to_csv().unwrap();

    let again = Source::from_csv("copy.csv", text.clone().into_bytes(), None, false, 1024).unwrap();
    let read_back = again.scan(vec![]).unwrap();

    assert_eq!(read_back.len(), 1);
    assert_eq!(read_back[0].row_count(), 4);
    for column in 0..6 {
        for row in 0..4 {
            let before = batches[0].fields[column].get_value(row).unwrap();
            let after = read_back[0].fields[column].get_value(row).unwrap();
            assert!(before.equals(&after));
        }
    }
    assert_eq!(text, read_back[0].to_csv().unwrap());
}
