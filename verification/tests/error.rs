use ttn_uplink::error::{Field, FormatError, IngestError};

#[test]
fn fields_are_named_as_in_the_document() {
    assert_eq!(Field::AppId.name(), "app_id");
    assert_eq!(Field::DevId.name(), "dev_id");
    assert_eq!(Field::HardwareSerial.name(), "hardware_serial");
    assert_eq!(Field::Port.name(), "port");
    assert_eq!(Field::Counter.name(), "counter");
    assert_eq!(Field::Metadata.name(), "metadata");
    assert_eq!(Field::Time.name(), "time");
    assert_eq!(Field::Longitude.name(), "longitude");
    assert_eq!(Field::Latitude.name(), "latitude");
    assert_eq!(Field::Altitude.name(), "altitude");
    assert_eq!(Field::PayloadRaw.name(), "payload_raw");
}

#[test]
fn format_errors_name_the_failure() {
    assert_eq!(FormatError::MalformedJson.describe(), "malformed JSON");
    assert_eq!(FormatError::NotAnObject.describe(), "the document is not an object");
    assert_eq!(FormatError::MissingField(Field::Port).describe(), "missing field `port`");
    assert_eq!(
        FormatError::WrongType(Field::Time).describe(),
        "invalid value for field `time`"
    );
    assert_eq!(FormatError::InvalidBase64.describe(), "the payload is not valid Base64");
    assert_eq!(FormatError::PayloadTooLarge.describe(), "the payload exceeds the maximum size");
}

#[test]
fn errors_name_their_kind() {
    assert_eq!(
        IngestError::Io(String::from("stream did not contain valid UTF-8")).describe(),
        "IO error (stream did not contain valid UTF-8)"
    );
    assert_eq!(
        IngestError::Format(FormatError::MissingField(Field::DevId)).describe(),
        "JSON error (missing field `dev_id`)"
    );
    assert_eq!(
        IngestError::Store(String::from("database is locked")).describe(),
        "SQLite error (database is locked)"
    );
    assert_eq!(IngestError::Io(String::new()).describe(), "IO error ()");
}

#[test]
fn a_format_error_converts_into_an_ingest_error() {
    let error: IngestError = FormatError::InvalidBase64.into();
    assert_eq!(error, IngestError::Format(FormatError::InvalidBase64));
    assert_eq!(
        IngestError::from(FormatError::WrongType(Field::Counter)),
        IngestError::Format(FormatError::WrongType(Field::Counter))
    );
}
