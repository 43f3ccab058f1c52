//! The shape in which a message goes to the relational store: one row of the
//! table `data`, its values bound in the order of the table's columns.

use crate::message::{MessageView, Real, UplinkMessage};
use vstd::prelude::*;
use vstd::slice::slice_to_vec;
use vstd::string::*;

verus! {

/// The statement that makes the table `data` where the store has none yet.
pub const CREATE_TABLE: &'static str =
    "CREATE TABLE IF NOT EXISTS data (app_id TEXT NOT NULL, dev_id TEXT NOT NULL, hardware_serial TEXT NOT NULL, port INTEGER NOT NULL, counter INTEGER NOT NULL, time TEXT NOT NULL, lon REAL NOT NULL, lat REAL NOT NULL, alt REAL NOT NULL, payload BLOB NOT NULL)";

/// The statement that adds one row to the table `data`. Its parameters stand
/// in the order in which [`bind`] gives their values.
pub const INSERT_ROW: &'static str =
    "INSERT INTO data (app_id, dev_id, hardware_serial, port, counter, time, lon, lat, alt, payload) VALUES (?, ?, ?, ?, ?, ?, ?, ?, ?, ?)";

/// The number of columns of the table `data`.
pub const COLUMNS: usize = 10;

/// A value as the store takes it for one column.
#[derive(Clone, Debug, PartialEq, Eq)]
pub enum SqlValue {
    Text(String),
    Integer(i64),
    Real(Real),
    Blob(Vec<u8>),
}

/// A [`SqlValue`] as a mathematical value.
pub enum SqlValueView {
    Text(Seq<char>),
    Integer(int),
    Real(Real),
    Blob(Seq<u8>),
}

impl View for SqlValue {
    type V = SqlValueView;

    open spec fn view(&self) -> SqlValueView {
        match self {
            SqlValue::Text(text) => SqlValueView::Text(text@),
            SqlValue::Integer(number) => SqlValueView::Integer(*number as int),
            SqlValue::Real(number) => SqlValueView::Real(*number),
            SqlValue::Blob(bytes) => SqlValueView::Blob(bytes@),
        }
    }
}

/// The values of the row that stands for `message`, in the order of the
/// columns app_id, dev_id, hardware_serial, port, counter, time, lon, lat,
/// alt, payload.
pub open spec fn row_of(message: MessageView) -> Seq<SqlValueView> {
    seq![
        SqlValueView::Text(message.app_id),
        SqlValueView::Text(message.dev_id),
        SqlValueView::Text(message.hardware_serial),
        SqlValueView::Integer(message.port as int),
        SqlValueView::Integer(message.counter as int),
        SqlValueView::Text(message.metadata.time),
        SqlValueView::Real(message.metadata.longitude),
        SqlValueView::Real(message.metadata.latitude),
        SqlValueView::Real(message.metadata.altitude),
        SqlValueView::Blob(message.payload),
    ]
}

/// The values to bind to the parameters of [`INSERT_ROW`] for `message`.
pub fn bind(message: &UplinkMessage) -> (row: Vec<SqlValue>)
    ensures
        row@.len() == COLUMNS,
        row@.map_values(|value: SqlValue| value@) == row_of(message@),
{
    let mut row: Vec<SqlValue> = Vec::with_capacity(COLUMNS);
    row.push(SqlValue::Text(message.app_id.clone()));
    row.push(SqlValue::Text(message.dev_id.clone()));
    row.push(SqlValue::Text(message.hardware_serial.clone()));
    row.push(SqlValue::Integer(message.port as i64));
    row.push(SqlValue::Integer(message.counter as i64));
    row.push(SqlValue::Text(message.metadata.time.clone()));
    row.push(SqlValue::Real(message.metadata.longitude));
    row.push(SqlValue::Real(message.metadata.latitude));
    row.push(SqlValue::Real(message.metadata.altitude));
    row.push(SqlValue::Blob(slice_to_vec(message.payload.as_slice())));
    assert(row@.map_values(|value: SqlValue| value@) =~= row_of(message@));
    row
}

} // verus!
