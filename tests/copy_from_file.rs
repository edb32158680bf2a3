use sql_exec::array::{ArrayImpl, ConvertError, DataTypeKind};
use sql_exec::chunk::DataChunk;
use sql_exec::executor::{shows_progress, CopyFromFileExecutor, ExecutorError};
use sql_exec::plan::{FileFormat, PhysicalCopyFromFile};
use sql_exec::array::DataType;

fn csv_format(header: bool) -> FileFormat {
    FileFormat::Csv { delimiter: ',', quote: '"', escape: None, header }
}

fn executor(header: bool, column_types: Vec<DataType>) -> CopyFromFileExecutor {
    CopyFromFileExecutor {
        plan: PhysicalCopyFromFile { path: "data.csv".to_string(), format: csv_format(header), column_types },
    }
}

fn three_columns() -> Vec<DataType> {
    vec![DataTypeKind::Int.not_null(), DataTypeKind::Double.not_null(), DataTypeKind::String.not_null()]
}

fn texts(v: &[&str]) -> Vec<Option<String>> {
    v.iter().map(|s| Some(s.to_string())).collect()
}

fn expected_rows() -> DataChunk {
    DataChunk::from_arrays(vec![
        ArrayImpl::Int32(vec![Some(1), Some(2)]),
        ArrayImpl::Float64(texts(&["1.5", "2.5"])),
        ArrayImpl::UTF8(texts(&["one", "two"])),
    ])
    .unwrap()
}

#[test]
fn read_csv() {
    let csv = "1,1.5,one\n2,2.5,two\n";
    let actual = executor(false, three_columns()).load(&csv.as_bytes().to_vec()).unwrap();
    assert_eq!(actual, expected_rows());
}

#[test]
fn header_line_is_skipped() {
    let csv = "a,b,c\n1,1.5,one\n2,2.5,two\n";
    let actual = executor(true, three_columns()).load(&csv.as_bytes().to_vec()).unwrap();
    assert_eq!(actual, expected_rows());
}

#[test]
fn header_line_without_header_flag_is_data() {
    let csv = "a,b,c\n1,1.5,one\n";
    let r = executor(false, three_columns()).load(&csv.as_bytes().to_vec());
    assert_eq!(r, Err(ExecutorError::Convert(ConvertError { text: "a".to_string(), kind: DataTypeKind::Int })));
}

#[test]
fn one_trailing_empty_field_is_accepted() {
    let csv = "1,1.5,one,\n2,2.5,two,\n";
    let actual = executor(false, three_columns()).load(&csv.as_bytes().to_vec()).unwrap();
    assert_eq!(actual, expected_rows());
}

#[test]
fn trailing_non_empty_field_is_a_length_mismatch() {
    let csv = "1,1.5,one,x\n";
    let r = executor(false, three_columns()).load(&csv.as_bytes().to_vec());
    assert_eq!(r, Err(ExecutorError::LengthMismatch { expected: 3, actual: 4 }));
}

#[test]
fn two_extra_fields_are_a_length_mismatch() {
    let csv = "1,1.5,one,,\n";
    let r = executor(false, three_columns()).load(&csv.as_bytes().to_vec());
    assert_eq!(r, Err(ExecutorError::LengthMismatch { expected: 3, actual: 5 }));
}

#[test]
fn missing_field_is_a_length_mismatch() {
    let csv = "1,1.5\n";
    let r = executor(false, three_columns()).load(&csv.as_bytes().to_vec());
    assert_eq!(r, Err(ExecutorError::LengthMismatch { expected: 3, actual: 2 }));
}

#[test]
fn empty_field_in_not_null_column_fails() {
    let csv = "1,,one\n";
    let r = executor(false, three_columns()).load(&csv.as_bytes().to_vec());
    assert_eq!(r, Err(ExecutorError::NotNullable));
}

#[test]
fn empty_field_in_nullable_column_is_null() {
    let types = vec![DataTypeKind::Int.nullable(), DataTypeKind::Double.nullable(), DataTypeKind::String.nullable()];
    let csv = "1,,one\n,2.5,\n";
    let actual = executor(false, types).load(&csv.as_bytes().to_vec()).unwrap();
    let expected = DataChunk::from_arrays(vec![
        ArrayImpl::Int32(vec![Some(1), None]),
        ArrayImpl::Float64(vec![None, Some("2.5".to_string())]),
        ArrayImpl::UTF8(vec![Some("one".to_string()), None]),
    ])
    .unwrap();
    assert_eq!(actual, expected);
}

#[test]
fn bad_integer_is_a_conversion_error() {
    let csv = "1,1.5,one\nx2,2.5,two\n";
    let r = executor(false, three_columns()).load(&csv.as_bytes().to_vec());
    assert_eq!(r, Err(ExecutorError::Convert(ConvertError { text: "x2".to_string(), kind: DataTypeKind::Int })));
}

#[test]
fn integer_out_of_range_is_a_conversion_error() {
    let csv = "2147483648,1.5,one\n";
    let r = executor(false, three_columns()).load(&csv.as_bytes().to_vec());
    assert_eq!(
        r,
        Err(ExecutorError::Convert(ConvertError { text: "2147483648".to_string(), kind: DataTypeKind::Int }))
    );
}

#[test]
fn negative_integer_loads() {
    let types = vec![DataTypeKind::Int.not_null()];
    let actual = executor(false, types).load(&"-2147483648\n+7\n".as_bytes().to_vec()).unwrap();
    let expected = DataChunk::from_arrays(vec![ArrayImpl::Int32(vec![Some(-2147483648), Some(7)])]).unwrap();
    assert_eq!(actual, expected);
}

#[test]
fn bad_float_is_a_conversion_error() {
    let csv = "1,1.5.2,one\n";
    let r = executor(false, three_columns()).load(&csv.as_bytes().to_vec());
    assert_eq!(
        r,
        Err(ExecutorError::Convert(ConvertError { text: "1.5.2".to_string(), kind: DataTypeKind::Double }))
    );
}

#[test]
fn length_error_comes_before_later_decode_error() {
    let types = vec![DataTypeKind::Int.not_null(), DataTypeKind::Int.not_null()];
    let csv = "1,2,3\n4\n";
    let r = executor(false, types).load(&csv.as_bytes().to_vec());
    assert_eq!(r, Err(ExecutorError::LengthMismatch { expected: 2, actual: 3 }));
}

#[test]
fn record_of_other_length_than_the_first_is_a_decode_error() {
    let types = vec![DataTypeKind::Int.not_null(), DataTypeKind::Int.not_null()];
    let csv = "1,2\n4\n";
    let r = executor(false, types).load(&csv.as_bytes().to_vec());
    assert!(matches!(r, Err(ExecutorError::Csv(_))));
}

#[test]
fn quoted_field_keeps_its_delimiter() {
    let types = vec![DataTypeKind::String.not_null(), DataTypeKind::Int.not_null()];
    let csv = "\"a,b\",1\n";
    let actual = executor(false, types).load(&csv.as_bytes().to_vec()).unwrap();
    let expected =
        DataChunk::from_arrays(vec![ArrayImpl::UTF8(texts(&["a,b"])), ArrayImpl::Int32(vec![Some(1)])]).unwrap();
    assert_eq!(actual, expected);
}

#[test]
fn other_delimiter_is_used() {
    let types = vec![DataTypeKind::Int.not_null(), DataTypeKind::String.not_null()];
    let ex = CopyFromFileExecutor {
        plan: PhysicalCopyFromFile {
            path: "data.tsv".to_string(),
            format: FileFormat::Csv { delimiter: '|', quote: '"', escape: None, header: false },
            column_types: types,
        },
    };
    let actual = ex.load(&"5|x,y\n".as_bytes().to_vec()).unwrap();
    let expected =
        DataChunk::from_arrays(vec![ArrayImpl::Int32(vec![Some(5)]), ArrayImpl::UTF8(texts(&["x,y"]))]).unwrap();
    assert_eq!(actual, expected);
}

#[test]
fn empty_input_loads_empty_columns() {
    let actual = executor(false, three_columns()).load(&Vec::new()).unwrap();
    let expected = DataChunk::from_arrays(vec![
        ArrayImpl::Int32(vec![]),
        ArrayImpl::Float64(vec![]),
        ArrayImpl::UTF8(vec![]),
    ])
    .unwrap();
    assert_eq!(actual, expected);
    assert_eq!(actual.cardinality(), 0);
}

#[test]
fn many_records_load_in_order() {
    let mut csv = String::new();
    for i in 0..2500 {
        csv.push_str(&format!("{},{}.5,r{}\n", i, i, i));
    }
    let actual = executor(false, three_columns()).load(&csv.into_bytes()).unwrap();
    assert_eq!(actual.cardinality(), 2500);
    match &actual.arrays()[0] {
        ArrayImpl::Int32(v) => assert_eq!(v[2499], Some(2499)),
        _ => panic!("first column is not Int32"),
    }
}

#[test]
fn progress_shows_from_one_mebibyte() {
    assert!(!shows_progress(0));
    assert!(!shows_progress(1048575));
    assert!(shows_progress(1048576));
}
