use vstd::prelude::*;

use crate::db_error::Error;

verus! {

/// A value stored in, or bound to, an SQL statement. `Real` holds the bit
/// pattern of a 64-bit floating-point value, which the logic never reads.
#[derive(Clone, Debug, PartialEq, Eq)]
pub enum SqlValue {
    Null,
    Integer(i64),
    Real(u64),
    Text(String),
    Blob(Vec<u8>),
}

/// A named parameter of a statement.
#[derive(Clone, Debug, PartialEq, Eq)]
pub struct QueryParam {
    pub name: String,
    pub value: SqlValue,
}

/// One result row, its values in column order.
#[derive(Clone, Debug, PartialEq, Eq)]
pub struct Row {
    pub values: Vec<SqlValue>,
}

/// A statement together with its named parameters.
#[derive(Clone, Debug, PartialEq, Eq)]
pub struct Statement {
    pub sql: String,
    pub params: Vec<QueryParam>,
}

/// An empty parameter list.
pub fn new_query_params() -> (r: Vec<QueryParam>)
    ensures
        r@.len() == 0,
{
    Vec::new()
}

/// A text parameter.
pub fn text_param(name: &str, value: String) -> (r: QueryParam)
    ensures
        r.name@ == name@,
        r.value == SqlValue::Text(value),
{
    QueryParam { name: name.to_owned(), value: SqlValue::Text(value) }
}

/// An integer parameter.
pub fn integer_param(name: &str, value: i64) -> (r: QueryParam)
    ensures
        r.name@ == name@,
        r.value == SqlValue::Integer(value),
{
    QueryParam { name: name.to_owned(), value: SqlValue::Integer(value) }
}

/// An optional integer parameter: `NULL` when absent.
pub fn opt_integer_param(name: &str, value: Option<i64>) -> (r: QueryParam)
    ensures
        r.name@ == name@,
        r.value == (match value {
            Some(v) => SqlValue::Integer(v),
            None => SqlValue::Null,
        }),
{
    let v = match value {
        Some(v) => SqlValue::Integer(v),
        None => SqlValue::Null,
    };
    QueryParam { name: name.to_owned(), value: v }
}

/// An optional text parameter: `NULL` when absent.
pub fn opt_text_param(name: &str, value: Option<String>) -> (r: QueryParam)
    ensures
        r.name@ == name@,
        r.value == (match value {
            Some(v) => SqlValue::Text(v),
            None => SqlValue::Null,
        }),
{
    let v = match value {
        Some(v) => SqlValue::Text(v),
        None => SqlValue::Null,
    };
    QueryParam { name: name.to_owned(), value: v }
}

/// The text in column `idx` of a row, if that column holds text.
pub open spec fn text_at(row: Row, idx: int) -> Option<String> {
    if 0 <= idx < row.values@.len() {
        match row.values@[idx] {
            SqlValue::Text(s) => Some(s),
            _ => None,
        }
    } else {
        None
    }
}

/// The integer in column `idx` of a row, if that column holds an integer.
pub open spec fn integer_at(row: Row, idx: int) -> Option<i64> {
    if 0 <= idx < row.values@.len() {
        match row.values@[idx] {
            SqlValue::Integer(v) => Some(v),
            _ => None,
        }
    } else {
        None
    }
}

/// Whether column `idx` exists and holds `NULL`.
pub open spec fn null_at(row: Row, idx: int) -> bool {
    0 <= idx < row.values@.len() && row.values@[idx] is Null
}

/// The error of a column that is missing or holds a value of another kind.
pub open spec fn is_value_error(e: Error) -> bool {
    e matches Error::DbValue { source } && source@ == "unexpected column value"@
}

fn value_error() -> (r: Error)
    ensures
        is_value_error(r),
{
    Error::DbValue { source: "unexpected column value".to_owned() }
}

/// The text of a column; an error when the column is missing or holds
/// anything else.
pub fn row_text(row: &Row, idx: usize) -> (r: Result<String, Error>)
    ensures
        match text_at(*row, idx as int) {
            Some(s) => r == Ok::<String, Error>(s),
            None => r matches Err(e) && is_value_error(e),
        },
{
    if idx < row.values.len() {
        match &row.values[idx] {
            SqlValue::Text(s) => Ok(s.clone()),
            _ => Err(value_error()),
        }
    } else {
        Err(value_error())
    }
}

/// The integer of a column; an error when the column is missing or holds
/// anything else.
pub fn row_integer(row: &Row, idx: usize) -> (r: Result<i64, Error>)
    ensures
        match integer_at(*row, idx as int) {
            Some(v) => r == Ok::<i64, Error>(v),
            None => r matches Err(e) && is_value_error(e),
        },
{
    if idx < row.values.len() {
        match &row.values[idx] {
            SqlValue::Integer(v) => Ok(*v),
            _ => Err(value_error()),
        }
    } else {
        Err(value_error())
    }
}

/// The text of a nullable column: `None` for `NULL`.
pub fn opt_row_text(row: &Row, idx: usize) -> (r: Result<Option<String>, Error>)
    ensures
        null_at(*row, idx as int) ==> r == Ok::<Option<String>, Error>(None),
        !null_at(*row, idx as int) ==> match text_at(*row, idx as int) {
            Some(s) => r == Ok::<Option<String>, Error>(Some(s)),
            None => r matches Err(e) && is_value_error(e),
        },
{
    if idx < row.values.len() {
        match &row.values[idx] {
            SqlValue::Null => Ok(None),
            SqlValue::Text(s) => Ok(Some(s.clone())),
            _ => Err(value_error()),
        }
    } else {
        Err(value_error())
    }
}

/// The integer of a nullable column: `None` for `NULL`.
pub fn opt_row_integer(row: &Row, idx: usize) -> (r: Result<Option<i64>, Error>)
    ensures
        null_at(*row, idx as int) ==> r == Ok::<Option<i64>, Error>(None),
        !null_at(*row, idx as int) ==> match integer_at(*row, idx as int) {
            Some(v) => r == Ok::<Option<i64>, Error>(Some(v)),
            None => r matches Err(e) && is_value_error(e),
        },
{
    if idx < row.values.len() {
        match &row.values[idx] {
            SqlValue::Null => Ok(None),
            SqlValue::Integer(v) => Ok(Some(*v)),
            _ => Err(value_error()),
        }
    } else {
        Err(value_error())
    }
}

} // verus!


verus! {

/// The mathematical value of an [`SqlValue`].
pub enum SqlValueView {
    Null,
    Integer(i64),
    Real(u64),
    Text(Seq<char>),
    Blob(Seq<u8>),
}

impl View for SqlValue {
    type V = SqlValueView;

    open spec fn view(&self) -> SqlValueView {
        match self {
            SqlValue::Null => SqlValueView::Null,
            SqlValue::Integer(v) => SqlValueView::Integer(*v),
            SqlValue::Real(bits) => SqlValueView::Real(*bits),
            SqlValue::Text(s) => SqlValueView::Text(s@),
            SqlValue::Blob(b) => SqlValueView::Blob(b@),
        }
    }
}

impl View for QueryParam {
    type V = (Seq<char>, SqlValueView);

    open spec fn view(&self) -> (Seq<char>, SqlValueView) {
        (self.name@, self.value@)
    }
}

/// The parameters of a statement, in binding order.
pub open spec fn params_view(params: Seq<QueryParam>) -> Seq<(Seq<char>, SqlValueView)> {
    params.map_values(|p: QueryParam| p@)
}

impl View for Statement {
    type V = (Seq<char>, Seq<(Seq<char>, SqlValueView)>);

    open spec fn view(&self) -> (Seq<char>, Seq<(Seq<char>, SqlValueView)>) {
        (self.sql@, params_view(self.params@))
    }
}

/// A text parameter's view.
pub open spec fn text_pv(name: Seq<char>, v: Seq<char>) -> (Seq<char>, SqlValueView) {
    (name, SqlValueView::Text(v))
}

/// An integer parameter's view.
pub open spec fn int_pv(name: Seq<char>, v: i64) -> (Seq<char>, SqlValueView) {
    (name, SqlValueView::Integer(v))
}

/// An optional text parameter's view: `NULL` when absent.
pub open spec fn opt_text_pv(name: Seq<char>, v: Option<Seq<char>>) -> (Seq<char>, SqlValueView) {
    match v {
        Some(s) => (name, SqlValueView::Text(s)),
        None => (name, SqlValueView::Null),
    }
}

/// An optional integer parameter's view: `NULL` when absent.
pub open spec fn opt_int_pv(name: Seq<char>, v: Option<i64>) -> (Seq<char>, SqlValueView) {
    match v {
        Some(i) => (name, SqlValueView::Integer(i)),
        None => (name, SqlValueView::Null),
    }
}

} // verus!
