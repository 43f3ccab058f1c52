//! The uplink message: what one line of the input stream holds, and how it
//! is read from the line's JSON document.

use crate::error::{Field, FormatError};
use crate::json::{
    as_binary64, as_text, as_unsigned, binary64_of, is_object, json_contents, json_document,
    member, member_of, parse, text_of, unsigned_of, Json,
};
use crate::payload::{deserialize_payload, payload_decoding, Payload, MAX_PAYLOAD_SIZE};
use vstd::prelude::*;
use vstd::string::*;
use vstd::utf8::encode_utf8;

verus! {

/// A real number in IEEE 754 binary64, held by its bit pattern.
///
/// Two of them are equal where their bit patterns are.
#[derive(Clone, Copy, Debug, PartialEq, Eq, Structural)]
pub struct Real {
    pub bits: u64,
}

/// When and where an uplink message was received.
#[derive(Clone, Debug, PartialEq, Eq)]
pub struct UplinkMetadata {
    /// The time of reception, as the sender wrote it.
    pub time: String,
    pub longitude: Real,
    pub latitude: Real,
    pub altitude: Real,
}

/// An [`UplinkMetadata`] as a mathematical value.
pub struct MetadataView {
    pub time: Seq<char>,
    pub longitude: Real,
    pub latitude: Real,
    pub altitude: Real,
}

impl View for UplinkMetadata {
    type V = MetadataView;

    open spec fn view(&self) -> MetadataView {
        MetadataView {
            time: self.time@,
            longitude: self.longitude,
            latitude: self.latitude,
            altitude: self.altitude,
        }
    }
}

/// One telemetry event that a device sent to the network.
#[derive(Clone, Debug, PartialEq, Eq)]
pub struct UplinkMessage {
    pub app_id: String,
    pub dev_id: String,
    pub hardware_serial: String,
    pub port: u32,
    pub counter: u32,
    pub metadata: UplinkMetadata,
    pub payload: Payload,
}

/// An [`UplinkMessage`] as a mathematical value.
pub struct MessageView {
    pub app_id: Seq<char>,
    pub dev_id: Seq<char>,
    pub hardware_serial: Seq<char>,
    pub port: u32,
    pub counter: u32,
    pub metadata: MetadataView,
    pub payload: Seq<u8>,
}

impl View for UplinkMessage {
    type V = MessageView;

    open spec fn view(&self) -> MessageView {
        MessageView {
            app_id: self.app_id@,
            dev_id: self.dev_id@,
            hardware_serial: self.hardware_serial@,
            port: self.port,
            counter: self.counter,
            metadata: self.metadata@,
            payload: self.payload@,
        }
    }
}

/// The text under `field` in the object `object`.
pub open spec fn text_at(object: Json, field: Field) -> Result<
    Seq<char>,
    FormatError,
> {
    match member_of(object, field.key()) {
        None => Err(FormatError::MissingField(field)),
        Some(value) => match text_of(value) {
            None => Err(FormatError::WrongType(field)),
            Some(text) => Ok(text),
        },
    }
}

/// `number` as the 32-bit count of `field`.
pub open spec fn count_of(field: Field, number: u64) -> Result<u32, FormatError> {
    if number <= u32::MAX {
        Ok(number as u32)
    } else {
        Err(FormatError::WrongType(field))
    }
}

/// The 32-bit count under `field` in the object `object`.
pub open spec fn count_at(object: Json, field: Field) -> Result<u32, FormatError> {
    match member_of(object, field.key()) {
        None => Err(FormatError::MissingField(field)),
        Some(value) => match unsigned_of(value) {
            None => Err(FormatError::WrongType(field)),
            Some(number) => count_of(field, number),
        },
    }
}

/// The real number under `field` in the object `object`.
pub open spec fn real_at(object: Json, field: Field) -> Result<Real, FormatError> {
    match member_of(object, field.key()) {
        None => Err(FormatError::MissingField(field)),
        Some(value) => match binary64_of(value) {
            None => Err(FormatError::WrongType(field)),
            Some(bits) => Ok(Real { bits }),
        },
    }
}

/// The metadata that the object `object` holds. Its members are read in the
/// order time, longitude, latitude, altitude, and the first that fails
/// decides the error.
pub open spec fn metadata_of(object: Json) -> Result<MetadataView, FormatError> {
    if !(object is Object) {
        Err(FormatError::WrongType(Field::Metadata))
    } else if text_at(object, Field::Time) is Err {
        Err(text_at(object, Field::Time)->Err_0)
    } else if real_at(object, Field::Longitude) is Err {
        Err(real_at(object, Field::Longitude)->Err_0)
    } else if real_at(object, Field::Latitude) is Err {
        Err(real_at(object, Field::Latitude)->Err_0)
    } else if real_at(object, Field::Altitude) is Err {
        Err(real_at(object, Field::Altitude)->Err_0)
    } else {
        Ok(
            MetadataView {
                time: text_at(object, Field::Time)->Ok_0,
                longitude: real_at(object, Field::Longitude)->Ok_0,
                latitude: real_at(object, Field::Latitude)->Ok_0,
                altitude: real_at(object, Field::Altitude)->Ok_0,
            },
        )
    }
}

/// The metadata under `metadata` in the object `document`.
pub open spec fn metadata_at(document: Json) -> Result<MetadataView, FormatError> {
    match member_of(document, Field::Metadata.key()) {
        None => Err(FormatError::MissingField(Field::Metadata)),
        Some(object) => metadata_of(object),
    }
}

/// The payload under `payload_raw` in the object `document`.
pub open spec fn payload_at(document: Json) -> Result<Seq<u8>, FormatError> {
    match text_at(document, Field::PayloadRaw) {
        Err(error) => Err(error),
        Ok(text) => payload_decoding(encode_utf8(text)),
    }
}

/// The uplink message that `document` holds. Its members are read in the
/// order app_id, dev_id, hardware_serial, port, counter, metadata,
/// payload_raw, and the first that fails decides the error. Members of other
/// names are passed over.
pub open spec fn message_in(document: Json) -> Result<MessageView, FormatError> {
    if !(document is Object) {
        Err(FormatError::NotAnObject)
    } else if text_at(document, Field::AppId) is Err {
        Err(text_at(document, Field::AppId)->Err_0)
    } else if text_at(document, Field::DevId) is Err {
        Err(text_at(document, Field::DevId)->Err_0)
    } else if text_at(document, Field::HardwareSerial) is Err {
        Err(text_at(document, Field::HardwareSerial)->Err_0)
    } else if count_at(document, Field::Port) is Err {
        Err(count_at(document, Field::Port)->Err_0)
    } else if count_at(document, Field::Counter) is Err {
        Err(count_at(document, Field::Counter)->Err_0)
    } else if metadata_at(document) is Err {
        Err(metadata_at(document)->Err_0)
    } else if payload_at(document) is Err {
        Err(payload_at(document)->Err_0)
    } else {
        Ok(
            MessageView {
                app_id: text_at(document, Field::AppId)->Ok_0,
                dev_id: text_at(document, Field::DevId)->Ok_0,
                hardware_serial: text_at(document, Field::HardwareSerial)->Ok_0,
                port: count_at(document, Field::Port)->Ok_0,
                counter: count_at(document, Field::Counter)->Ok_0,
                metadata: metadata_at(document)->Ok_0,
                payload: payload_at(document)->Ok_0,
            },
        )
    }
}

/// The uplink message that the line `line` holds.
pub open spec fn message_of_line(line: Seq<char>) -> Result<MessageView, FormatError> {
    match json_document(line) {
        None => Err(FormatError::MalformedJson),
        Some(document) => message_in(document),
    }
}

/// What a message holds is what its document holds under the message's
/// members, each of them unchanged.
pub proof fn a_message_keeps_its_members(document: Json)
    requires
        message_in(document) is Ok,
    ensures
        text_at(document, Field::AppId) == Ok::<Seq<char>, FormatError>(
            message_in(document)->Ok_0.app_id,
        ),
        text_at(document, Field::DevId) == Ok::<Seq<char>, FormatError>(
            message_in(document)->Ok_0.dev_id,
        ),
        text_at(document, Field::HardwareSerial) == Ok::<Seq<char>, FormatError>(
            message_in(document)->Ok_0.hardware_serial,
        ),
        count_at(document, Field::Port) == Ok::<u32, FormatError>(
            message_in(document)->Ok_0.port,
        ),
        count_at(document, Field::Counter) == Ok::<u32, FormatError>(
            message_in(document)->Ok_0.counter,
        ),
        metadata_at(document) == Ok::<MetadataView, FormatError>(
            message_in(document)->Ok_0.metadata,
        ),
        payload_at(document) == Ok::<Seq<u8>, FormatError>(message_in(document)->Ok_0.payload),
{
}

/// Members under other keys than those of a message are passed over: with or
/// without one of them, a document holds the same message or fails for the
/// same reason.
pub proof fn other_members_are_passed_over(
    members: Map<Seq<char>, Json>,
    key: Seq<char>,
    value: Json,
)
    requires
        key != Field::AppId.key(),
        key != Field::DevId.key(),
        key != Field::HardwareSerial.key(),
        key != Field::Port.key(),
        key != Field::Counter.key(),
        key != Field::Metadata.key(),
        key != Field::PayloadRaw.key(),
    ensures
        message_in(Json::Object(members.insert(key, value))) == message_in(Json::Object(members)),
{
}

/// The payload of a message is never more than [`MAX_PAYLOAD_SIZE`] bytes.
pub proof fn a_message_s_payload_is_bounded(line: Seq<char>)
    ensures
        message_of_line(line) matches Ok(message) ==> message.payload.len() <= MAX_PAYLOAD_SIZE,
{
}

/// Narrows the number read under `field` to the 32 bits of a port or a
/// frame counter.
pub fn narrow_count(field: Field, number: u64) -> (outcome: Result<u32, FormatError>)
    ensures
        outcome == count_of(field, number),
{
    if number <= u32::MAX as u64 {
        Ok(number as u32)
    } else {
        Err(FormatError::WrongType(field))
    }
}

fn read_text(object: &serde_json::Value, field: Field) -> (outcome: Result<String, FormatError>)
    ensures
        match text_at(json_contents(*object), field) {
            Ok(text) => outcome is Ok && outcome->Ok_0@ == text,
            Err(error) => outcome == Err::<String, FormatError>(error),
        },
{
    match member(object, field.name()) {
        None => Err(FormatError::MissingField(field)),
        Some(value) => match as_text(value) {
            None => Err(FormatError::WrongType(field)),
            Some(text) => Ok(text.to_owned()),
        },
    }
}

fn read_count(object: &serde_json::Value, field: Field) -> (outcome: Result<u32, FormatError>)
    ensures
        outcome == count_at(json_contents(*object), field),
{
    match member(object, field.name()) {
        None => Err(FormatError::MissingField(field)),
        Some(value) => match as_unsigned(value) {
            None => Err(FormatError::WrongType(field)),
            Some(number) => narrow_count(field, number),
        },
    }
}

fn read_real(object: &serde_json::Value, field: Field) -> (outcome: Result<Real, FormatError>)
    ensures
        outcome == real_at(json_contents(*object), field),
{
    match member(object, field.name()) {
        None => Err(FormatError::MissingField(field)),
        Some(value) => match as_binary64(value) {
            None => Err(FormatError::WrongType(field)),
            Some(bits) => Ok(Real { bits }),
        },
    }
}

impl UplinkMetadata {
    /// Reads the metadata from the JSON value that stands under `metadata`.
    pub fn from_value(object: &serde_json::Value) -> (outcome: Result<
        UplinkMetadata,
        FormatError,
    >)
        ensures
            match metadata_of(json_contents(*object)) {
                Ok(metadata) => outcome is Ok && outcome->Ok_0@ == metadata,
                Err(error) => outcome == Err::<UplinkMetadata, FormatError>(error),
            },
    {
        if !is_object(object) {
            return Err(FormatError::WrongType(Field::Metadata));
        }
        let time = read_text(object, Field::Time)?;
        let longitude = read_real(object, Field::Longitude)?;
        let latitude = read_real(object, Field::Latitude)?;
        let altitude = read_real(object, Field::Altitude)?;
        Ok(UplinkMetadata { time, longitude, latitude, altitude })
    }
}

impl UplinkMessage {
    /// Reads an uplink message from a JSON document.
    pub fn from_document(document: &serde_json::Value) -> (outcome: Result<
        UplinkMessage,
        FormatError,
    >)
        ensures
            match message_in(json_contents(*document)) {
                Ok(message) => outcome is Ok && outcome->Ok_0@ == message,
                Err(error) => outcome == Err::<UplinkMessage, FormatError>(error),
            },
    {
        if !is_object(document) {
            return Err(FormatError::NotAnObject);
        }
        let app_id = read_text(document, Field::AppId)?;
        let dev_id = read_text(document, Field::DevId)?;
        let hardware_serial = read_text(document, Field::HardwareSerial)?;
        let port = read_count(document, Field::Port)?;
        let counter = read_count(document, Field::Counter)?;
        let metadata = match member(document, Field::Metadata.name()) {
            None => {
                return Err(FormatError::MissingField(Field::Metadata));
            },
            Some(object) => UplinkMetadata::from_value(object)?,
        };
        let payload_raw = read_text(document, Field::PayloadRaw)?;
        let payload = deserialize_payload(payload_raw.as_str())?;
        Ok(UplinkMessage { app_id, dev_id, hardware_serial, port, counter, metadata, payload })
    }

    /// Reads an uplink message from one line of the input stream.
    pub fn from_line(line: &str) -> (outcome: Result<UplinkMessage, FormatError>)
        ensures
            match message_of_line(line@) {
                Ok(message) => outcome is Ok && outcome->Ok_0@ == message,
                Err(error) => outcome == Err::<UplinkMessage, FormatError>(error),
            },
    {
        match parse(line) {
            Err(_) => Err(FormatError::MalformedJson),
            Ok(document) => UplinkMessage::from_document(&document),
        }
    }
}

} // verus!
