//! Files that the front end hands over to be saved.
//!
//! The content arrives as base64 text. It is size-checked before and after
//! decoding; only then the user is asked where to put it.

use vstd::prelude::*;
use vstd::string::{StringExecFns, StringSliceAdditionalSpecFns};
use base64::Engine;
use crate::decimal::{decimal, push_decimal};
use crate::text::{chars_of, string_of};

verus! {

/// The largest file that is saved, in bytes: 50 MiB.
pub const MAX_SAVE_FILE_BYTES: usize = 50 * 1024 * 1024;

/// The longest base64 text that is decoded at all: what the largest file
/// encodes to, and a little for padding.
pub const MAX_SAVE_FILE_BASE64_LEN: usize = MAX_SAVE_FILE_BYTES * 4 / 3 + 16;

/// The error type of the `base64` crate's decoder. Nothing in it is read
/// here.
#[verifier::external_type_specification]
#[verifier::external_body]
pub struct ExDecodeError(base64::DecodeError);

/// The bytes that `input` stands for in standard base64, with padding, as
/// the `base64` crate's `STANDARD` engine decodes it; `None` for text that
/// the engine rejects.
pub uninterp spec fn base64_standard_decoded(input: Seq<char>) -> Option<Seq<u8>>;

/// Decodes with `base64::engine::general_purpose::STANDARD.decode`. The
/// decoder is a function of its input alone: it returns the bytes that the
/// text stands for, or an error for text that is not base64.
#[verifier::external_body]
fn base64_decode(data: &str) -> (r: Result<Vec<u8>, base64::DecodeError>)
    ensures
        match r {
            Ok(bytes) => base64_standard_decoded(data@) == Some(bytes@),
            Err(_) => base64_standard_decoded(data@) is None,
        },
{
    base64::engine::general_purpose::STANDARD.decode(data)
}

/// The text that the `base64` crate's `DecodeError` displays as. Nothing is
/// claimed of it.
#[verifier::external_body]
fn decode_error_text(error: &base64::DecodeError) -> (text: String) {
    error.to_string()
}

/// Why a file was not saved.
#[derive(Clone, Debug, PartialEq, Eq)]
pub enum SaveFileError {
    /// The content is larger than [`MAX_SAVE_FILE_BYTES`], encoded or
    /// decoded.
    TooLarge,
    /// The content is not base64; the decoder's words are kept.
    Decode(String),
    /// The file could not be written; the system's words are kept.
    Write(String),
    /// The user closed the dialog without choosing a place.
    Cancelled,
}

impl SaveFileError {
    /// The message that the front end shows for the error.
    pub open spec fn message_text(self) -> Seq<char> {
        match self {
            SaveFileError::TooLarge => "file too large: max "@ + decimal(
                (MAX_SAVE_FILE_BYTES / 1024 / 1024) as nat,
            ) + " MB"@,
            SaveFileError::Decode(text) => "base64 decode error: "@ + text@,
            SaveFileError::Write(text) => "write error: "@ + text@,
            SaveFileError::Cancelled => "cancelled"@,
        }
    }

    /// The message that the front end shows for the error.
    pub fn message(&self) -> (text: String)
        ensures
            text@ == self.message_text(),
    {
        match self {
            SaveFileError::TooLarge => {
                let mut chars = chars_of("file too large: max ");
                push_decimal(&mut chars, (MAX_SAVE_FILE_BYTES / 1024 / 1024) as u64);
                let len: usize = chars.len();
                assert(chars@.subrange(0, len as int) =~= chars@);
                string_of(&chars, 0, len).concat(" MB")
            },
            SaveFileError::Decode(text) => String::from_str("base64 decode error: ").concat(
                text.as_str(),
            ),
            SaveFileError::Write(text) => String::from_str("write error: ").concat(text.as_str()),
            SaveFileError::Cancelled => String::from_str("cancelled"),
        }
    }
}

/// What becomes of a payload.
pub enum PayloadVerdict {
    /// It is saved, with these bytes.
    Accepted(Seq<u8>),
    /// It is refused as too large.
    TooLarge,
    /// It is refused as no base64.
    Undecodable,
}

/// What becomes of decoded content: it is accepted up to the largest size.
pub open spec fn decoded_verdict(decoded: Option<Seq<u8>>) -> PayloadVerdict {
    match decoded {
        None => PayloadVerdict::Undecodable,
        Some(bytes) => if bytes.len() > MAX_SAVE_FILE_BYTES {
            PayloadVerdict::TooLarge
        } else {
            PayloadVerdict::Accepted(bytes)
        },
    }
}

/// What becomes of a payload whose text takes `encoded_len` bytes and
/// decodes to `decoded`: text that is too long is refused before it is
/// decoded.
pub open spec fn payload_verdict(encoded_len: nat, decoded: Option<Seq<u8>>) -> PayloadVerdict {
    if encoded_len > MAX_SAVE_FILE_BASE64_LEN {
        PayloadVerdict::TooLarge
    } else {
        decoded_verdict(decoded)
    }
}

/// The result `r` reports the verdict `verdict`.
pub open spec fn reports(r: Result<Vec<u8>, SaveFileError>, verdict: PayloadVerdict) -> bool {
    match verdict {
        PayloadVerdict::Accepted(bytes) => r matches Ok(v) && v@ == bytes,
        PayloadVerdict::TooLarge => r matches Err(SaveFileError::TooLarge),
        PayloadVerdict::Undecodable => r matches Err(SaveFileError::Decode(_)),
    }
}

/// The bytes of a decoding, where there are any.
pub open spec fn decoded_bytes(decoded: Result<Vec<u8>, String>) -> Option<Seq<u8>> {
    match decoded {
        Ok(bytes) => Some(bytes@),
        Err(_) => None,
    }
}

/// Judges what the decoder returned: its bytes, or the words of its error.
/// Bytes are accepted up to the largest size; an error is passed on with
/// its words.
pub fn judge_decoded(decoded: Result<Vec<u8>, String>) -> (r: Result<Vec<u8>, SaveFileError>)
    ensures
        reports(r, decoded_verdict(decoded_bytes(decoded))),
        decoded matches Err(text) ==> r matches Err(SaveFileError::Decode(t)) && t@ == text@,
{
    match decoded {
        Err(text) => Err(SaveFileError::Decode(text)),
        Ok(bytes) => {
            if bytes.len() > MAX_SAVE_FILE_BYTES {
                Err(SaveFileError::TooLarge)
            } else {
                Ok(bytes)
            }
        },
    }
}

/// Turns the base64 text of a file into its bytes, within the size limits.
pub fn decode_save_payload(data: &str) -> (r: Result<Vec<u8>, SaveFileError>)
    ensures
        reports(r, payload_verdict(data.spec_bytes().len(), base64_standard_decoded(data@))),
{
    if data.as_bytes().len() > MAX_SAVE_FILE_BASE64_LEN {
        return Err(SaveFileError::TooLarge);
    }
    let decoded = match base64_decode(data) {
        Ok(bytes) => Ok(bytes),
        Err(error) => Err(decode_error_text(&error)),
    };
    judge_decoded(decoded)
}

} // verus!
