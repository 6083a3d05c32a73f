//! Serialisation of boolean values and columns: as text, as JSON, and as a
//! ClickHouse column.

use vstd::prelude::*;

use opensrv_clickhouse::types::column::ArcColumnData;
use opensrv_clickhouse::types::column::ArcColumnWrapper;
use opensrv_clickhouse::types::column::ColumnFrom;

use crate::datavalues::BooleanColumn;
use crate::datavalues::Column;
use crate::datavalues::DataValue;
use crate::error::ErrorCode;
use serde_json::Error as JsonError;
use serde_json::Value as JsonValue;

verus! {

// ---------------------------------------------------------------------------
// Outside items.

#[verifier::external_type_specification]
#[verifier::external_body]
pub struct ExJsonValue(serde_json::Value);

#[verifier::external_type_specification]
#[verifier::external_body]
pub struct ExJsonError(serde_json::Error);

/// The JSON value that `serde_json::to_value` makes of a boolean.
pub uninterp spec fn json_of_bool(b: bool) -> serde_json::Value;

/// Calls `serde_json::to_value` on a boolean. Its serializer's
/// `serialize_bool` answers `Ok(Value::Bool(b))`, so the call never fails;
/// the value itself is opaque here and is named `json_of_bool(b)`.
#[verifier::external_body]
fn json_from_bool(b: bool) -> (res: Result<JsonValue, JsonError>)
    ensures
        res is Ok && res->Ok_0 == json_of_bool(b),
{
    serde_json::to_value(b)
}

/// A ClickHouse column of `UInt8` values, as the ClickHouse server code of
/// `opensrv_clickhouse` takes it. Its type, `Arc<dyn ColumnData + Send +
/// Sync>`, cannot be declared to Verus, so the struct is opaque.
#[verifier::external_body]
pub struct ClickHouseColumn {
    pub data: ArcColumnData,
}

/// The values that a ClickHouse column holds, in order.
pub uninterp spec fn clickhouse_column_values(c: ClickHouseColumn) -> Seq<u8>;

/// Calls `ColumnFrom::column_from::<ArcColumnWrapper>` of `opensrv_clickhouse`
/// on a vector of bytes; its source copies the bytes, in order, into the new
/// column, and nothing else.
#[verifier::external_body]
fn clickhouse_column_from_u8(values: Vec<u8>) -> (c: ClickHouseColumn)
    ensures
        clickhouse_column_values(c) == values@,
{
    ClickHouseColumn { data: Vec::column_from::<ArcColumnWrapper>(values) }
}

// ---------------------------------------------------------------------------
// Specifications.

/// The text of a boolean: `1` for true, `0` for false.
pub open spec fn bool_text(b: bool) -> Seq<char> {
    if b {
        "1"@
    } else {
        "0"@
    }
}

/// The byte of a boolean: 1 for true, 0 for false.
pub open spec fn bool_byte(b: bool) -> u8 {
    if b {
        1
    } else {
        0
    }
}

/// The text of the error for a value that is not a boolean.
pub open spec fn incorrect_boolean_message() -> Seq<char> {
    "Incorrect boolean value"@
}

/// The text of the error for a column that is not a boolean column.
pub open spec fn downcast_error_message(column: Column) -> Seq<char> {
    match column {
        Column::Null(_) => "downcast column error, column type: Null, expected column: BooleanColumn"@,
        Column::Boolean(_) => "downcast column error, column type: Boolean, expected column: BooleanColumn"@,
        Column::Int64(_) => "downcast column error, column type: Int64, expected column: BooleanColumn"@,
        Column::UInt64(_) => "downcast column error, column type: UInt64, expected column: BooleanColumn"@,
        Column::String(_) => "downcast column error, column type: String, expected column: BooleanColumn"@,
    }
}

/// `e` is the error for a column that is not a boolean column.
pub open spec fn is_downcast_error(column: Column, e: ErrorCode) -> bool {
    e matches ErrorCode::UnknownColumn(m) && m@ == downcast_error_message(column)
}

/// The JSON values of a boolean column, in order.
pub open spec fn json_values(c: BooleanColumn) -> Seq<serde_json::Value> {
    c.values@.map_values(|b: bool| json_of_bool(b))
}

/// The JSON values of a boolean column, each present, in order.
pub open spec fn json_values_present(c: BooleanColumn) -> Seq<Option<serde_json::Value>> {
    c.values@.map_values(|b: bool| Some(json_of_bool(b)))
}

/// The bytes of a boolean column, in order.
pub open spec fn byte_values(c: BooleanColumn) -> Seq<u8> {
    c.values@.map_values(|b: bool| bool_byte(b))
}

// ---------------------------------------------------------------------------
// The serializer.

/// Takes the boolean column out of a column, or fails with the error for
/// a column of another kind.
pub fn check_get_boolean(column: &Column) -> (r: Result<&BooleanColumn, ErrorCode>)
    ensures
        match *column {
            Column::Boolean(c) => r == Ok::<&BooleanColumn, ErrorCode>(&c),
            _ => (r matches Err(e) && is_downcast_error(*column, e)),
        },
{
    match column {
        Column::Boolean(c) => Ok(c),
        Column::Null(_) => Err(ErrorCode::UnknownColumn(
            "downcast column error, column type: Null, expected column: BooleanColumn".to_owned(),
        )),
        Column::Int64(_) => Err(ErrorCode::UnknownColumn(
            "downcast column error, column type: Int64, expected column: BooleanColumn".to_owned(),
        )),
        Column::UInt64(_) => Err(ErrorCode::UnknownColumn(
            "downcast column error, column type: UInt64, expected column: BooleanColumn".to_owned(),
        )),
        Column::String(_) => Err(ErrorCode::UnknownColumn(
            "downcast column error, column type: String, expected column: BooleanColumn".to_owned(),
        )),
    }
}

/// Serializes booleans: as text `1` and `0`, as JSON booleans, and as
/// ClickHouse `UInt8` columns of 1 and 0.
#[derive(Debug, Clone)]
pub struct BooleanSerializer {}

impl BooleanSerializer {
    /// The text of a boolean value: `1` or `0`; any other value is refused.
    pub fn serialize_value(&self, value: &DataValue) -> (r: Result<String, ErrorCode>)
        ensures
            match *value {
                DataValue::Boolean(x) => (r matches Ok(s) && s@ == bool_text(x)),
                _ => (r matches Err(ErrorCode::BadBytes(m)) && m@ == incorrect_boolean_message()),
            },
    {
        if let DataValue::Boolean(x) = value {
            if *x {
                Ok("1".to_owned())
            } else {
                Ok("0".to_owned())
            }
        } else {
            Err(ErrorCode::BadBytes("Incorrect boolean value".to_owned()))
        }
    }

    /// The texts of the values of a boolean column, in order.
    pub fn serialize_column(&self, column: &Column) -> (r: Result<Vec<String>, ErrorCode>)
        ensures
            match *column {
                Column::Boolean(c) => (r matches Ok(v) && v@.len() == c.values@.len() && forall|i: int|
                    0 <= i < v@.len() ==> #[trigger] v@[i]@ == bool_text(c.values@[i])),
                _ => (r matches Err(e) && is_downcast_error(*column, e)),
            },
    {
        let array = match check_get_boolean(column) {
            Ok(a) => a,
            Err(e) => return Err(e),
        };
        let mut result: Vec<String> = Vec::new();
        let n = array.values.len();
        for i in 0..n
            invariant
                n == array.values@.len(),
                result@.len() == i,
                forall|j: int| 0 <= j < i ==> #[trigger] result@[j]@ == bool_text(array.values@[j]),
        {
            if array.values[i] {
                result.push("1".to_owned());
            } else {
                result.push("0".to_owned());
            }
        }
        Ok(result)
    }

    /// The JSON values of a boolean column, in order.
    pub fn serialize_json(&self, column: &Column) -> (r: Result<Vec<serde_json::Value>, ErrorCode>)
        ensures
            match *column {
                Column::Boolean(c) => (r matches Ok(v) && v@ == json_values(c) && v@.len()
                    == c.values@.len() && forall|i: int|
                    0 <= i < c.values@.len() ==> #[trigger] v@[i] == json_of_bool(c.values@[i])),
                _ => (r matches Err(e) && is_downcast_error(*column, e)),
            },
    {
        let array = match check_get_boolean(column) {
            Ok(a) => a,
            Err(e) => return Err(e),
        };
        let mut result: Vec<serde_json::Value> = Vec::new();
        let n = array.values.len();
        for i in 0..n
            invariant
                n == array.values@.len(),
                result@ == json_values(*array).take(i as int),
        {
            let v = json_from_bool(array.values[i]).unwrap();
            proof {
                assert(json_values(*array).take(i + 1) == json_values(*array).take(i as int).push(v));
            }
            result.push(v);
        }
        proof {
            assert(json_values(*array).take(n as int) == json_values(*array));
        }
        Ok(result)
    }

    /// A ClickHouse `UInt8` column of the values of a boolean column:
    /// 1 for true, 0 for false, in order.
    pub fn serialize_clickhouse_format(&self, column: &Column) -> (r: Result<ClickHouseColumn, ErrorCode>)
        ensures
            match *column {
                Column::Boolean(c) => (r matches Ok(col) && clickhouse_column_values(col) == byte_values(c)
                    && clickhouse_column_values(col).len() == c.values@.len() && forall|i: int|
                    0 <= i < c.values@.len() ==> #[trigger] clickhouse_column_values(col)[i] == (if c.values@[i] {
                    1u8
                } else {
                    0u8
                })),
                _ => (r matches Err(e) && is_downcast_error(*column, e)),
            },
    {
        let col = match check_get_boolean(column) {
            Ok(a) => a,
            Err(e) => return Err(e),
        };
        let mut values: Vec<u8> = Vec::new();
        let n = col.values.len();
        for i in 0..n
            invariant
                n == col.values@.len(),
                values@ == byte_values(*col).take(i as int),
        {
            let b: u8 = if col.values[i] { 1 } else { 0 };
            proof {
                assert(byte_values(*col).take(i + 1) == byte_values(*col).take(i as int).push(b));
            }
            values.push(b);
        }
        proof {
            assert(byte_values(*col).take(n as int) == byte_values(*col));
        }
        Ok(clickhouse_column_from_u8(values))
    }

    /// The JSON values of a boolean column, in order, whatever the validity
    /// of each row says.
    pub fn serialize_json_object(&self, column: &Column, _valids: Option<&Vec<bool>>) -> (r: Result<
        Vec<serde_json::Value>,
        ErrorCode,
    >)
        ensures
            match *column {
                Column::Boolean(c) => (r matches Ok(v) && v@ == json_values(c) && v@.len()
                    == c.values@.len() && forall|i: int|
                    0 <= i < c.values@.len() ==> #[trigger] v@[i] == json_of_bool(c.values@[i])),
                _ => (r matches Err(e) && is_downcast_error(*column, e)),
            },
    {
        self.serialize_json(column)
    }

    /// The JSON values of a boolean column, in order, each present: no
    /// boolean fails to serialize.
    pub fn serialize_json_object_suppress_error(&self, column: &Column) -> (r: Result<
        Vec<Option<serde_json::Value>>,
        ErrorCode,
    >)
        ensures
            match *column {
                Column::Boolean(c) => (r matches Ok(v) && v@ == json_values_present(c) && v@.len()
                    == c.values@.len() && forall|i: int|
                    0 <= i < c.values@.len() ==> #[trigger] v@[i] == Some(json_of_bool(c.values@[i]))),
                _ => (r matches Err(e) && is_downcast_error(*column, e)),
            },
    {
        let column = match check_get_boolean(column) {
            Ok(a) => a,
            Err(e) => return Err(e),
        };
        let mut result: Vec<Option<serde_json::Value>> = Vec::new();
        let n = column.values.len();
        for i in 0..n
            invariant
                n == column.values@.len(),
                result@ == json_values_present(*column).take(i as int),
        {
            let v = match json_from_bool(column.values[i]) {
                Ok(v) => Some(v),
                Err(_) => None,
            };
            proof {
                assert(json_values_present(*column).take(i + 1) == json_values_present(*column).take(
                    i as int,
                ).push(v));
            }
            result.push(v);
        }
        proof {
            assert(json_values_present(*column).take(n as int) == json_values_present(*column));
        }
        Ok(result)
    }
}

// ---------------------------------------------------------------------------
// Laws.

/// The text of a boolean is `1` exactly when its byte is 1, and `0` exactly
/// when its byte is 0: the text and the ClickHouse forms agree.
pub proof fn lemma_text_and_byte_agree(b: bool)
    ensures
        (bool_text(b) == "1"@) == (bool_byte(b) == 1),
        (bool_text(b) == "0"@) == (bool_byte(b) == 0),
{
    reveal_strlit("1");
    reveal_strlit("0");
    assert("1"@[0] != "0"@[0]);
}

/// The bytes of a boolean column: one per row, in row order, 1 for a true
/// row and 0 for a false one.
pub proof fn lemma_byte_values_rows(c: BooleanColumn)
    ensures
        byte_values(c).len() == c.values@.len(),
        forall|i: int|
            0 <= i < c.values@.len() ==> #[trigger] byte_values(c)[i] == (if c.values@[i] {
                1u8
            } else {
                0u8
            }),
{
}

/// The JSON values of a boolean column: one per row, in row order, each the
/// JSON value of that row's boolean (present, where errors are suppressed).
pub proof fn lemma_json_values_rows(c: BooleanColumn)
    ensures
        json_values(c).len() == c.values@.len(),
        json_values_present(c).len() == c.values@.len(),
        forall|i: int|
            0 <= i < c.values@.len() ==> #[trigger] json_values(c)[i] == json_of_bool(c.values@[i]),
        forall|i: int|
            0 <= i < c.values@.len() ==> #[trigger] json_values_present(c)[i] == Some(
                json_of_bool(c.values@[i]),
            ),
{
}

/// The text of a boolean is `1` for true and `0` for false.
pub proof fn lemma_bool_text(b: bool)
    ensures
        b ==> bool_text(b) == "1"@,
        !b ==> bool_text(b) == "0"@,
{
}

/// Serializing a boolean column to JSON while suppressing errors gives the
/// same values as serializing it to JSON, each present.
pub proof fn lemma_suppressed_json_is_json(c: BooleanColumn)
    ensures
        json_values_present(c) == json_values(c).map_values(|v: serde_json::Value| Some(v)),
{
    assert(json_values_present(c) =~= json_values(c).map_values(|v: serde_json::Value| Some(v)));
}

} // verus!
