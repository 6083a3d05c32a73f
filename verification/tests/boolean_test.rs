use databend::boolean::BooleanSerializer;
use databend::datavalues::BooleanColumn;
use databend::datavalues::Column;
use databend::datavalues::DataValue;
use databend::error::ErrorCode;
use opensrv_clickhouse::types::column::ColumnData;
use opensrv_clickhouse::types::ValueRef;
use serde_json::Value;

fn bools() -> Column {
    Column::Boolean(BooleanColumn { values: vec![true, false, false, true] })
}

#[test]
fn test_serialize_value() {
    let s = BooleanSerializer {};
    assert_eq!(s.serialize_value(&DataValue::Boolean(true)), Ok("1".to_string()));
    assert_eq!(s.serialize_value(&DataValue::Boolean(false)), Ok("0".to_string()));
    let bad = ErrorCode::BadBytes("Incorrect boolean value".to_string());
    assert_eq!(s.serialize_value(&DataValue::Int64(1)), Err(bad.clone()));
    assert_eq!(s.serialize_value(&DataValue::Null), Err(bad.clone()));
    assert_eq!(s.serialize_value(&DataValue::String(b"true".to_vec())), Err(bad));
}

#[test]
fn test_serialize_column() {
    let s = BooleanSerializer {};
    assert_eq!(
        s.serialize_column(&bools()).unwrap(),
        vec!["1".to_string(), "0".to_string(), "0".to_string(), "1".to_string()]
    );
    let empty = Column::Boolean(BooleanColumn { values: vec![] });
    assert!(s.serialize_column(&empty).unwrap().is_empty());
}

#[test]
fn test_serialize_column_wrong_kind() {
    let s = BooleanSerializer {};
    let r = s.serialize_column(&Column::Int64(vec![1, 0]));
    assert_eq!(
        r,
        Err(ErrorCode::UnknownColumn(
            "downcast column error, column type: Int64, expected column: BooleanColumn".to_string()
        ))
    );
    assert!(s.serialize_json(&Column::Null(2)).is_err());
    assert!(s.serialize_clickhouse_format(&Column::String(vec![])).is_err());
    assert!(s.serialize_json_object_suppress_error(&Column::UInt64(vec![1])).is_err());
}

#[test]
fn test_serialize_json() {
    let s = BooleanSerializer {};
    let v = s.serialize_json(&bools()).unwrap();
    assert_eq!(v, vec![Value::Bool(true), Value::Bool(false), Value::Bool(false), Value::Bool(true)]);
    let o = s.serialize_json_object(&bools(), None).unwrap();
    assert_eq!(o, v);
    let valids = vec![false, false, false, false];
    assert_eq!(s.serialize_json_object(&bools(), Some(&valids)).unwrap(), v);
}

#[test]
fn test_serialize_json_suppress_error() {
    let s = BooleanSerializer {};
    let v = s.serialize_json_object_suppress_error(&bools()).unwrap();
    assert_eq!(
        v,
        vec![
            Some(Value::Bool(true)),
            Some(Value::Bool(false)),
            Some(Value::Bool(false)),
            Some(Value::Bool(true))
        ]
    );
}

#[test]
fn test_serialize_clickhouse_format() {
    let s = BooleanSerializer {};
    let col = s.serialize_clickhouse_format(&bools()).unwrap();
    assert_eq!(col.data.len(), 4);
    assert_eq!(col.data.at(0), ValueRef::UInt8(1));
    assert_eq!(col.data.at(1), ValueRef::UInt8(0));
    assert_eq!(col.data.at(2), ValueRef::UInt8(0));
    assert_eq!(col.data.at(3), ValueRef::UInt8(1));
}

#[test]
fn test_text_and_bytes_agree() {
    let s = BooleanSerializer {};
    let text = s.serialize_column(&bools()).unwrap();
    let col = s.serialize_clickhouse_format(&bools()).unwrap();
    for (i, t) in text.iter().enumerate() {
        let expected = if t == "1" { ValueRef::UInt8(1) } else { ValueRef::UInt8(0) };
        assert_eq!(col.data.at(i), expected);
    }
}
