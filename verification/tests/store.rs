use ttn_uplink::ingest::process_line;
use ttn_uplink::message::{Real, UplinkMessage};
use ttn_uplink::store::{bind, SqlValue, COLUMNS, CREATE_TABLE, INSERT_ROW};

const SAMPLE: &str = "{\"app_id\":\"a1\",\"dev_id\":\"d1\",\"hardware_serial\":\"h1\",\"port\":1,\"counter\":2,\"metadata\":{\"time\":\"2020-01-01T00:00:00Z\",\"longitude\":1.5,\"latitude\":2.5,\"altitude\":3.5},\"payload_raw\":\"AQID\"}";

fn to_sql(value: SqlValue) -> rusqlite::types::Value {
    match value {
        SqlValue::Text(text) => rusqlite::types::Value::Text(text),
        SqlValue::Integer(number) => rusqlite::types::Value::Integer(number),
        SqlValue::Real(number) => rusqlite::types::Value::Real(f64::from_bits(number.bits)),
        SqlValue::Blob(bytes) => rusqlite::types::Value::Blob(bytes),
    }
}

fn insert(connection: &rusqlite::Connection, message: &UplinkMessage) {
    let row: Vec<rusqlite::types::Value> = bind(message).into_iter().map(to_sql).collect();
    let mut statement = connection.prepare(INSERT_ROW).unwrap();
    assert_eq!(statement.execute(row).unwrap(), 1);
}

fn count(connection: &rusqlite::Connection) -> i64 {
    connection
        .query_row("SELECT COUNT(*) FROM data", rusqlite::NO_PARAMS, |row| row.get(0))
        .unwrap()
}

#[test]
fn the_values_are_bound_in_the_order_of_the_columns() {
    let message = UplinkMessage::from_line(SAMPLE).unwrap();
    let row = bind(&message);
    assert_eq!(row.len(), COLUMNS);
    assert_eq!(
        row,
        vec![
            SqlValue::Text(String::from("a1")),
            SqlValue::Text(String::from("d1")),
            SqlValue::Text(String::from("h1")),
            SqlValue::Integer(1),
            SqlValue::Integer(2),
            SqlValue::Text(String::from("2020-01-01T00:00:00Z")),
            SqlValue::Real(Real { bits: 1.5f64.to_bits() }),
            SqlValue::Real(Real { bits: 2.5f64.to_bits() }),
            SqlValue::Real(Real { bits: 3.5f64.to_bits() }),
            SqlValue::Blob(vec![0x01, 0x02, 0x03]),
        ]
    );
}

#[test]
fn the_largest_counts_are_bound_without_loss() {
    let line = SAMPLE.replace("\"port\":1", "\"port\":4294967295");
    let row = bind(&UplinkMessage::from_line(&line).unwrap());
    assert_eq!(row[3], SqlValue::Integer(4_294_967_295));
}

#[test]
fn an_empty_payload_is_bound_as_an_empty_blob() {
    let line = SAMPLE.replace("AQID", "");
    let row = bind(&UplinkMessage::from_line(&line).unwrap());
    assert_eq!(row[9], SqlValue::Blob(Vec::new()));
}

#[test]
fn the_insert_statement_has_one_parameter_for_each_column() {
    assert_eq!(COLUMNS, 10);
    assert_eq!(INSERT_ROW.matches('?').count(), COLUMNS);
    let connection = rusqlite::Connection::open_in_memory().unwrap();
    connection.execute(CREATE_TABLE, rusqlite::NO_PARAMS).unwrap();
    let statement = connection.prepare(INSERT_ROW).unwrap();
    assert_eq!(statement.parameter_count(), COLUMNS);
}

#[test]
fn the_table_has_its_ten_columns() {
    let connection = rusqlite::Connection::open_in_memory().unwrap();
    connection.execute(CREATE_TABLE, rusqlite::NO_PARAMS).unwrap();
    let mut statement = connection.prepare("PRAGMA table_info(data)").unwrap();
    let columns: Vec<(String, String, i64)> = statement
        .query_map(rusqlite::NO_PARAMS, |row| Ok((row.get(1)?, row.get(2)?, row.get(3)?)))
        .unwrap()
        .map(|column| column.unwrap())
        .collect();
    let expected = [
        ("app_id", "TEXT"),
        ("dev_id", "TEXT"),
        ("hardware_serial", "TEXT"),
        ("port", "INTEGER"),
        ("counter", "INTEGER"),
        ("time", "TEXT"),
        ("lon", "REAL"),
        ("lat", "REAL"),
        ("alt", "REAL"),
        ("payload", "BLOB"),
    ];
    assert_eq!(columns.len(), expected.len());
    for (column, (name, kind)) in columns.iter().zip(expected.iter()) {
        assert_eq!(column.0, *name);
        assert_eq!(column.1, *kind);
        assert_eq!(column.2, 1);
    }
}

#[test]
fn the_persisted_row_matches_the_line() {
    let connection = rusqlite::Connection::open_in_memory().unwrap();
    connection.execute(CREATE_TABLE, rusqlite::NO_PARAMS).unwrap();
    insert(&connection, &process_line(SAMPLE).unwrap());
    assert_eq!(count(&connection), 1);
    let row: (String, String, String, i64, i64, String, f64, f64, f64, Vec<u8>) = connection
        .query_row(
            "SELECT app_id, dev_id, hardware_serial, port, counter, time, lon, lat, alt, payload FROM data",
            rusqlite::NO_PARAMS,
            |row| {
                Ok((
                    row.get(0)?,
                    row.get(1)?,
                    row.get(2)?,
                    row.get(3)?,
                    row.get(4)?,
                    row.get(5)?,
                    row.get(6)?,
                    row.get(7)?,
                    row.get(8)?,
                    row.get(9)?,
                ))
            },
        )
        .unwrap();
    assert_eq!(row.0, "a1");
    assert_eq!(row.1, "d1");
    assert_eq!(row.2, "h1");
    assert_eq!(row.3, 1);
    assert_eq!(row.4, 2);
    assert_eq!(row.5, "2020-01-01T00:00:00Z");
    assert_eq!(row.6, 1.5);
    assert_eq!(row.7, 2.5);
    assert_eq!(row.8, 3.5);
    assert_eq!(row.9, vec![0x01, 0x02, 0x03]);
}

#[test]
fn making_the_table_again_keeps_its_rows() {
    let connection = rusqlite::Connection::open_in_memory().unwrap();
    connection.execute(CREATE_TABLE, rusqlite::NO_PARAMS).unwrap();
    insert(&connection, &process_line(SAMPLE).unwrap());
    connection.execute(CREATE_TABLE, rusqlite::NO_PARAMS).unwrap();
    assert_eq!(count(&connection), 1);
    insert(&connection, &process_line(SAMPLE).unwrap());
    assert_eq!(count(&connection), 2);
}

#[test]
fn equal_messages_make_separate_rows() {
    let connection = rusqlite::Connection::open_in_memory().unwrap();
    connection.execute(CREATE_TABLE, rusqlite::NO_PARAMS).unwrap();
    let message = process_line(SAMPLE).unwrap();
    insert(&connection, &message);
    insert(&connection, &message);
    insert(&connection, &message);
    assert_eq!(count(&connection), 3);
}
