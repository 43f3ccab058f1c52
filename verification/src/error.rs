//! What can go wrong while a line is taken in: the input stream fails, the
//! line does not hold a well-formed uplink message, or the store refuses it.

use vstd::prelude::*;
use vstd::string::*;

verus! {

/// The members of the JSON document that an uplink message is read from.
#[derive(Clone, Copy, Debug, PartialEq, Eq, Structural)]
pub enum Field {
    AppId,
    DevId,
    HardwareSerial,
    Port,
    Counter,
    Metadata,
    Time,
    Longitude,
    Latitude,
    Altitude,
    PayloadRaw,
}

impl Field {
    /// The member's key as it stands in the document.
    pub open spec fn key(self) -> Seq<char> {
        match self {
            Field::AppId => "app_id"@,
            Field::DevId => "dev_id"@,
            Field::HardwareSerial => "hardware_serial"@,
            Field::Port => "port"@,
            Field::Counter => "counter"@,
            Field::Metadata => "metadata"@,
            Field::Time => "time"@,
            Field::Longitude => "longitude"@,
            Field::Latitude => "latitude"@,
            Field::Altitude => "altitude"@,
            Field::PayloadRaw => "payload_raw"@,
        }
    }

    /// The member's key as it stands in the document.
    pub fn name(self) -> (name: &'static str)
        ensures
            name@ == self.key(),
    {
        match self {
            Field::AppId => "app_id",
            Field::DevId => "dev_id",
            Field::HardwareSerial => "hardware_serial",
            Field::Port => "port",
            Field::Counter => "counter",
            Field::Metadata => "metadata",
            Field::Time => "time",
            Field::Longitude => "longitude",
            Field::Latitude => "latitude",
            Field::Altitude => "altitude",
            Field::PayloadRaw => "payload_raw",
        }
    }
}

/// Why a line does not hold a well-formed uplink message.
#[derive(Clone, Copy, Debug, PartialEq, Eq, Structural)]
pub enum FormatError {
    /// The line is not a JSON document.
    MalformedJson,
    /// The document is not a JSON object.
    NotAnObject,
    /// The object has no member of this name.
    MissingField(Field),
    /// The member is there, but its value is of another type or out of range.
    WrongType(Field),
    /// The payload text is not Base64 in the standard alphabet.
    InvalidBase64,
    /// The payload text is longer than that of any payload within the bound,
    /// or decodes to more bytes than a payload may have.
    PayloadTooLarge,
}

impl FormatError {
    /// The text of [`FormatError::describe`].
    pub open spec fn message(self) -> Seq<char> {
        match self {
            FormatError::MalformedJson => "malformed JSON"@,
            FormatError::NotAnObject => "the document is not an object"@,
            FormatError::MissingField(field) => "missing field `"@ + field.key() + "`"@,
            FormatError::WrongType(field) => "invalid value for field `"@ + field.key() + "`"@,
            FormatError::InvalidBase64 => "the payload is not valid Base64"@,
            FormatError::PayloadTooLarge => "the payload exceeds the maximum size"@,
        }
    }

    /// One line of text that names the failure.
    pub fn describe(&self) -> (text: String)
        ensures
            text@ == self.message(),
    {
        match self {
            FormatError::MalformedJson => String::from_str("malformed JSON"),
            FormatError::NotAnObject => String::from_str("the document is not an object"),
            FormatError::MissingField(field) => String::from_str("missing field `").concat(
                field.name(),
            ).concat("`"),
            FormatError::WrongType(field) => String::from_str("invalid value for field `").concat(
                field.name(),
            ).concat("`"),
            FormatError::InvalidBase64 => String::from_str("the payload is not valid Base64"),
            FormatError::PayloadTooLarge => String::from_str(
                "the payload exceeds the maximum size",
            ),
        }
    }
}

/// Everything that can go wrong while one line is taken in.
#[derive(Clone, Debug, PartialEq, Eq)]
pub enum IngestError {
    /// Reading the input stream, or opening the store, failed; the text
    /// says how.
    Io(String),
    /// The line does not hold a well-formed uplink message.
    Format(FormatError),
    /// The store refused a statement or a record; the text is the store's
    /// own report.
    Store(String),
}

/// An [`IngestError`] as a mathematical value.
pub enum ErrorView {
    Io(Seq<char>),
    Format(FormatError),
    Store(Seq<char>),
}

impl View for IngestError {
    type V = ErrorView;

    open spec fn view(&self) -> ErrorView {
        match self {
            IngestError::Io(report) => ErrorView::Io(report@),
            IngestError::Format(error) => ErrorView::Format(*error),
            IngestError::Store(report) => ErrorView::Store(report@),
        }
    }
}

impl ErrorView {
    /// The text of [`IngestError::describe`].
    pub open spec fn message(self) -> Seq<char> {
        match self {
            ErrorView::Io(report) => "IO error ("@ + report + ")"@,
            ErrorView::Format(error) => "JSON error ("@ + error.message() + ")"@,
            ErrorView::Store(report) => "SQLite error ("@ + report + ")"@,
        }
    }
}

impl From<FormatError> for IngestError {
    /// A format error as the ingestion error that it is.
    fn from(error: FormatError) -> (wrapped: IngestError) {
        IngestError::Format(error)
    }
}

impl vstd::std_specs::convert::FromSpecImpl<FormatError> for IngestError {
    open spec fn obeys_from_spec() -> bool {
        true
    }

    open spec fn from_spec(error: FormatError) -> IngestError {
        IngestError::Format(error)
    }
}

impl IngestError {
    /// One line of text that names the failure and its kind.
    pub fn describe(&self) -> (text: String)
        ensures
            text@ == self@.message(),
    {
        match self {
            IngestError::Io(report) => String::from_str("IO error (").concat(
                report.as_str(),
            ).concat(")"),
            IngestError::Format(error) => {
                let inner = error.describe();
                String::from_str("JSON error (").concat(inner.as_str()).concat(")")
            },
            IngestError::Store(report) => String::from_str("SQLite error (").concat(
                report.as_str(),
            ).concat(")"),
        }
    }
}

} // verus!
