//! The binary payload of an uplink message: at most [`MAX_PAYLOAD_SIZE`]
//! bytes, held in a buffer of exactly that capacity.

use crate::error::FormatError;
use crate::standard_base64::{base64_decoding, decode_into, decoding_room};
use vstd::prelude::*;
use vstd::string::*;

verus! {

/// The largest payload, in bytes, that the network hands over.
pub const MAX_PAYLOAD_SIZE: usize = 512;

/// The length, in bytes, of the longest Base64 text of a payload within the
/// bound: four characters for every three bytes, the last group counted in
/// full.
pub const MAX_ENCODED_SIZE: usize = 684;

/// The room, in bytes, in which a text of at most [`MAX_ENCODED_SIZE`] bytes
/// is decoded. It is one byte more than a payload may have, so that a payload
/// one byte too long is told from one that fits.
pub const DECODING_ROOM: usize = 513;

/// What a Base64 text gives as a payload.
///
/// A text longer than [`MAX_ENCODED_SIZE`] is too large whatever it holds. A
/// shorter one gives the bytes that it stands for in standard Base64 where
/// these are at most [`MAX_PAYLOAD_SIZE`], is too large where they are more,
/// and is invalid where it stands for none.
pub open spec fn payload_decoding(text: Seq<u8>) -> Result<Seq<u8>, FormatError> {
    if text.len() > MAX_ENCODED_SIZE {
        Err(FormatError::PayloadTooLarge)
    } else {
        match base64_decoding(text) {
            None => Err(FormatError::InvalidBase64),
            Some(bytes) => if bytes.len() > MAX_PAYLOAD_SIZE {
                Err(FormatError::PayloadTooLarge)
            } else {
                Ok(bytes)
            },
        }
    }
}

/// A binary blob of at most [`MAX_PAYLOAD_SIZE`] bytes.
///
/// The backing buffer has a fixed capacity; only its first `size` bytes are
/// meaningful, and nothing else of it is ever handed out.
#[derive(Debug, PartialEq, Eq)]
pub struct Payload {
    bytes: [u8; MAX_PAYLOAD_SIZE],
    size: usize,
}

impl View for Payload {
    type V = Seq<u8>;

    /// The meaningful bytes, in order.
    closed spec fn view(&self) -> Seq<u8> {
        self.bytes@.subrange(0, self.size as int)
    }
}

impl Clone for Payload {
    fn clone(&self) -> (copy: Payload)
        ensures
            copy@ == self@,
    {
        proof {
            use_type_invariant(self);
        }
        Payload { bytes: self.bytes, size: self.size }
    }
}

impl Payload {
    /// The size is within the capacity, and the buffer is zero behind the
    /// meaningful bytes, so that two payloads of the same bytes are the same
    /// in every byte.
    #[verifier::type_invariant]
    spec fn well_formed(&self) -> bool {
        &&& self.size <= MAX_PAYLOAD_SIZE
        &&& forall|i: int| self.size <= i < MAX_PAYLOAD_SIZE ==> self.bytes@[i] == 0
    }

    /// The payload of no bytes.
    pub fn empty() -> (payload: Payload)
        ensures
            payload@ == Seq::<u8>::empty(),
    {
        Payload { bytes: [0; MAX_PAYLOAD_SIZE], size: 0 }
    }

    /// The payload that holds exactly `bytes`. More than
    /// [`MAX_PAYLOAD_SIZE`] bytes are refused, and nothing of them is kept.
    pub fn from_bytes(bytes: &[u8]) -> (outcome: Result<Payload, FormatError>)
        ensures
            match outcome {
                Ok(payload) => bytes@.len() <= MAX_PAYLOAD_SIZE && payload@ == bytes@,
                Err(error) => bytes@.len() > MAX_PAYLOAD_SIZE && error
                    == FormatError::PayloadTooLarge,
            },
    {
        let size = bytes.len();
        if size > MAX_PAYLOAD_SIZE {
            return Err(FormatError::PayloadTooLarge);
        }
        let mut buffer = [0u8; MAX_PAYLOAD_SIZE];
        let mut at: usize = 0;
        while at < size
            invariant
                at <= size,
                size == bytes@.len(),
                size <= MAX_PAYLOAD_SIZE,
                forall|i: int| 0 <= i < at ==> buffer@[i] == bytes@[i],
                forall|i: int| at <= i < MAX_PAYLOAD_SIZE ==> buffer@[i] == 0,
            decreases size - at,
        {
            buffer[at] = bytes[at];
            at += 1;
        }
        let payload = Payload { bytes: buffer, size };
        assert(payload@ =~= bytes@);
        Ok(payload)
    }

    /// The number of meaningful bytes.
    pub fn len(&self) -> (n: usize)
        ensures
            n == self@.len(),
            n <= MAX_PAYLOAD_SIZE,
    {
        proof {
            use_type_invariant(self);
        }
        self.size
    }

    /// The meaningful bytes, and only those.
    pub fn as_slice(&self) -> (bytes: &[u8])
        ensures
            bytes@ == self@,
            bytes@.len() <= MAX_PAYLOAD_SIZE,
    {
        proof {
            use_type_invariant(self);
        }
        &self.bytes[0..self.size]
    }
}

/// Decodes the Base64 text of a payload.
///
/// The text is decoded in a room of fixed size, and a text too long for that
/// room is refused before any of it is decoded. What was decoded goes to the
/// payload's buffer only once it is known to fit.
pub fn deserialize_payload(input: &str) -> (outcome: Result<Payload, FormatError>)
    ensures
        match payload_decoding(input.spec_bytes()) {
            Ok(bytes) => outcome is Ok && outcome->Ok_0@ == bytes,
            Err(error) => outcome == Err::<Payload, FormatError>(error),
        },
        outcome is Ok ==> outcome->Ok_0@.len() <= MAX_PAYLOAD_SIZE,
{
    let text = input.as_bytes();
    if text.len() > MAX_ENCODED_SIZE {
        return Err(FormatError::PayloadTooLarge);
    }
    let mut room = [0u8; DECODING_ROOM];
    match decode_into(text, &mut room) {
        Err(_) => Err(FormatError::InvalidBase64),
        Ok(count) => Payload::from_bytes(&room[0..count]),
    }
}

/// The two bounds on a text belong to the bound on a payload: the longest
/// text is that of a payload of [`MAX_PAYLOAD_SIZE`] bytes, and the room is
/// what decoding the longest text may take.
pub proof fn the_bounds_agree()
    ensures
        MAX_ENCODED_SIZE == (MAX_PAYLOAD_SIZE + 2) / 3 * 4,
        DECODING_ROOM == decoding_room(MAX_ENCODED_SIZE as nat),
        DECODING_ROOM == MAX_PAYLOAD_SIZE + 1,
{
}

/// A payload is never more than [`MAX_PAYLOAD_SIZE`] bytes, and it holds
/// nothing but what its text stands for.
pub proof fn a_payload_is_what_its_text_stands_for(text: Seq<u8>)
    ensures
        payload_decoding(text) matches Ok(bytes) ==> {
            &&& bytes.len() <= MAX_PAYLOAD_SIZE
            &&& base64_decoding(text) == Some(bytes)
        },
{
}

/// Decoding gives back what was encoded, bytes and length, for everything up
/// to the bound, and refuses what is beyond it: where a text of at most
/// [`MAX_ENCODED_SIZE`] bytes stands for `bytes`, it gives the payload of
/// exactly these if they are at most [`MAX_PAYLOAD_SIZE`], and is too large
/// if they are one more or more.
pub proof fn the_bound_is_sharp(text: Seq<u8>, bytes: Seq<u8>)
    requires
        text.len() <= MAX_ENCODED_SIZE,
        base64_decoding(text) == Some(bytes),
    ensures
        bytes.len() <= MAX_PAYLOAD_SIZE ==> payload_decoding(text) == Ok::<Seq<u8>, FormatError>(
            bytes,
        ),
        bytes.len() > MAX_PAYLOAD_SIZE ==> payload_decoding(text) == Err::<Seq<u8>, FormatError>(
            FormatError::PayloadTooLarge,
        ),
{
}

} // verus!
