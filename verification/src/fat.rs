//! The buffer sensor: each snapshot is a buffer of random bytes of the
//! configured size, reported as base64 text.

use vstd::prelude::*;
use crate::config::{attribute_i32, ComponentConfig, Dependency};
use crate::error::SensorError;
use crate::host::random_byte;
use crate::record::{outcome, reply, Entries, ReadingsResult, Record, StructuredRecord};
use crate::value::{Value, ValueView};

verus! {

/// The text that the base64 crate's standard engine (standard alphabet,
/// with padding) gives for `bytes`.
pub uninterp spec fn standard_encoding(bytes: Seq<u8>) -> Seq<char>;

/// The length of the padded base64 text for `bytes_len` bytes: four
/// characters for every three bytes or part of three.
pub open spec fn encoded_len(bytes_len: nat) -> nat {
    4 * ((bytes_len + 2) / 3)
}

/// The number of padding characters at the end of the base64 text for
/// `bytes_len` bytes: one for each byte that the last three lack.
pub open spec fn padding_len(bytes_len: nat) -> nat {
    ((3 - bytes_len % 3) % 3) as nat
}

/// Whether `text` has the shape of the padded base64 text for `bytes_len`
/// bytes: it has the length of such a text, the padding character `=`
/// stands in its last places, as many as the padding takes, and nowhere
/// else.
pub open spec fn padded_for(text: Seq<char>, bytes_len: nat) -> bool {
    &&& text.len() == encoded_len(bytes_len)
    &&& forall|i: int|
        0 <= i < text.len() ==> ((#[trigger] text[i]) == '=' <==> i >= text.len()
            - padding_len(bytes_len))
}

/// The number of padding characters at the end of `text`, up to two.
pub open spec fn trailing_padding(text: Seq<char>) -> nat {
    if text.len() >= 2 && text[text.len() - 1] == '=' && text[text.len() - 2] == '=' {
        2
    } else if text.len() >= 1 && text[text.len() - 1] == '=' {
        1
    } else {
        0
    }
}

/// The number of bytes that the padded base64 text `text` decodes to: three
/// for every four characters, less one for each padding character at its
/// end.
pub open spec fn decoded_len(text: Seq<char>) -> int {
    3 * (text.len() / 4) - trailing_padding(text)
}

/// A text of the shape of the padded base64 text for `bytes_len` bytes
/// decodes to `bytes_len` bytes; for no byte it is the empty text.
pub proof fn padded_text_decodes_to_its_size(text: Seq<char>, bytes_len: nat)
    requires
        padded_for(text, bytes_len),
    ensures
        decoded_len(text) == bytes_len,
        bytes_len == 0 ==> text =~= Seq::<char>::empty(),
{
    let len = text.len() as int;
    if bytes_len % 3 == 0 {
        if len >= 1 {
            assert(text[len - 1] != '=');
        }
    } else if bytes_len % 3 == 1 {
        assert(text[len - 1] == '=');
        assert(text[len - 2] == '=');
    } else {
        assert(text[len - 1] == '=');
        assert(text[len - 2] != '=');
    }
}

/// Calls `base64::Engine::encode` on
/// `base64::engine::general_purpose::STANDARD`.
///
/// Taken on trust: the text depends on the bytes alone; it has the length
/// that the crate's `encoded_len` computes with padding; and its
/// characters are symbols of the standard alphabet, which has no `=`,
/// followed by as many `=` as fill the last four characters. The call
/// panics where that length does not fit the machine's word, so such
/// inputs are left out.
#[verifier::external_body]
fn encode_standard(bytes: &Vec<u8>) -> (text: String)
    requires
        encoded_len(bytes@.len()) <= usize::MAX,
    ensures
        text@ == standard_encoding(bytes@),
        padded_for(text@, bytes@.len()),
{
    base64::Engine::encode(&base64::engine::general_purpose::STANDARD, bytes)
}

/// The name of the attribute that holds the size of the buffer.
pub const LEN_ATTRIBUTE: &'static str = "len";

/// The sensor that reports buffers of a configured size.
#[derive(Debug, PartialEq, Eq)]
pub struct FatMessages {
    buf_len: i32,
}

impl View for FatMessages {
    type V = int;

    /// The configured size of the buffer.
    closed spec fn view(&self) -> int {
        self.buf_len as int
    }
}

/// The size that a configuration asks for: its attribute `len` where that
/// reads as a 32-bit signed integer, and 10 where it is absent or does not.
pub open spec fn configured_len(attributes: Entries) -> int {
    match attribute_i32(attributes, LEN_ATTRIBUTE@) {
        Ok(len) => len as int,
        Err(_) => 10,
    }
}

/// The readings that show the text `text` under the key `blob`.
pub open spec fn text_readings(text: Seq<char>) -> Entries {
    seq![("blob"@, ValueView::Text(text))]
}

/// The readings that show the buffer `bytes`: its base64 text under the key
/// `blob`.
pub open spec fn blob_readings(bytes: Seq<u8>) -> Entries {
    text_readings(standard_encoding(bytes))
}

/// Whether `readings` is the snapshot of a sensor of size `size` that drew
/// the buffer `bytes`: the buffer has the size, the readings show its
/// base64 text, and that text decodes to as many bytes as the size says.
pub open spec fn snapshot_of(readings: Result<Entries, SensorError>, bytes: Seq<u8>, size: int) -> bool {
    &&& bytes.len() == size
    &&& readings == Ok::<Entries, SensorError>(blob_readings(bytes))
    &&& padded_for(standard_encoding(bytes), bytes.len())
    &&& decoded_len(standard_encoding(bytes)) == size
}

impl FatMessages {
    /// Builds the sensor with the size that the configuration asks for. It
    /// needs no dependency, and is built from every configuration.
    pub fn from_config(cfg: &ComponentConfig, _deps: Vec<Dependency>) -> (built: Result<
        FatMessages,
        SensorError,
    >)
        ensures
            built matches Ok(sensor) && sensor@ == configured_len(cfg@),
    {
        let len = match cfg.get_attribute_i32(LEN_ATTRIBUTE) {
            Ok(len) => len,
            Err(_) => 10,
        };
        Ok(FatMessages { buf_len: len })
    }

    /// The configured size of the buffer.
    pub fn buf_len(&self) -> (len: i32)
        ensures
            len == self@,
    {
        self.buf_len
    }

    /// The readings that show the text `text`.
    pub fn readings_of_text(text: String) -> (readings: ReadingsResult)
        ensures
            readings@ == text_readings(text@),
    {
        let mut readings = Record::new();
        readings.insert("blob", Value::Text(text));
        assert(readings@ =~= text_readings(text@));
        readings
    }

    /// The readings that show the buffer `bytes`. Their text has the shape
    /// of a padded base64 text for as many bytes, so it decodes to as many
    /// bytes as the buffer has, and an empty buffer gives the empty text.
    ///
    /// The length of that text must fit the machine's word.
    pub fn blob_reading(bytes: &Vec<u8>) -> (readings: ReadingsResult)
        requires
            encoded_len(bytes@.len()) <= usize::MAX,
        ensures
            readings@ == blob_readings(bytes@),
            padded_for(standard_encoding(bytes@), bytes@.len()),
            decoded_len(standard_encoding(bytes@)) == bytes@.len(),
    {
        let text = encode_standard(bytes);
        proof {
            padded_text_decodes_to_its_size(text@, bytes@.len());
        }
        Self::readings_of_text(text)
    }

    /// Takes a snapshot: draws as many random bytes as the configured size
    /// says and reports them as base64 text, which decodes to as many
    /// bytes. The sensor stays as it was.
    ///
    /// The configured size must not be negative.
    pub fn get_generic_readings(&mut self) -> (result: Result<ReadingsResult, SensorError>)
        requires
            old(self)@ >= 0,
        ensures
            *final(self) == *old(self),
            exists|bytes: Seq<u8>| #[trigger] snapshot_of(outcome(result), bytes, old(self)@),
    {
        let len: usize = self.buf_len as usize;
        let mut buf: Vec<u8> = Vec::with_capacity(len);
        while buf.len() < len
            invariant
                buf@.len() <= len,
            decreases len - buf@.len(),
        {
            buf.push(random_byte());
        }
        let result = Ok(Self::blob_reading(&buf));
        assert(snapshot_of(outcome(result), buf@, old(self)@));
        result
    }

    /// The summary of the sensor's state: a record without entries.
    pub fn get_status(&self) -> (status: Result<Option<StructuredRecord>, SensorError>)
        ensures
            reply(status) == Ok::<Option<Entries>, SensorError>(Some(Entries::empty())),
    {
        Ok(Some(Record::new()))
    }
}

} // verus!
