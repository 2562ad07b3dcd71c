//! Text as it lies in a file: the bytes that a save puts on disk, and the text
//! that an open makes of a file's bytes.
//!
//! A file holds UTF-8 and nothing else. Reading and writing the disk is the
//! caller's part; what is decided here is which bytes stand for which text.

use vstd::prelude::*;
use vstd::utf8::{
    decode_utf8, decode_utf8_encode_utf8, encode_utf8, encode_utf8_decode_utf8,
    encode_utf8_valid_utf8, valid_utf8,
};

verus! {

/// Why a file operation failed.
#[derive(Clone, Copy, Debug, PartialEq, Eq, Structural)]
pub enum IoError {
    /// The file could not be read as text.
    Unreadable,
    /// The file could not be written.
    Unwritable,
}

/// The bytes that saving `text` puts into a file.
pub open spec fn saved_bytes(text: Seq<char>) -> Seq<u8> {
    encode_utf8(text)
}

/// The text that opening a file with the contents `bytes` yields: `None` when
/// the bytes are not UTF-8.
pub open spec fn opened_text(bytes: Seq<u8>) -> Option<Seq<char>> {
    if valid_utf8(bytes) {
        Some(decode_utf8(bytes))
    } else {
        None
    }
}

/// Calls `String::from_utf8`, which checks that the bytes are valid UTF-8 and
/// then takes them over as a `String` without changing them. The result is
/// `None` exactly when the check fails, and otherwise the string whose
/// characters the bytes encode.
#[verifier::external_body]
fn string_from_utf8(bytes: Vec<u8>) -> (text: Option<String>)
    ensures
        valid_utf8(bytes@) ==> text is Some && text->Some_0@ == decode_utf8(bytes@),
        !valid_utf8(bytes@) ==> text is None,
{
    match String::from_utf8(bytes) {
        Ok(text) => Some(text),
        Err(_) => None,
    }
}

/// The conversions between a document's text and a file's contents.
pub struct FileStream {}

impl FileStream {
    /// The text of a file whose contents are `contents`. A file that is not
    /// UTF-8 is unreadable.
    pub fn open(contents: Vec<u8>) -> (text: Result<String, IoError>)
        ensures
            match opened_text(contents@) {
                Some(chars) => text is Ok && text->Ok_0@ == chars,
                None => text == Err::<String, IoError>(IoError::Unreadable),
            },
    {
        match string_from_utf8(contents) {
            Some(text) => Ok(text),
            None => Err(IoError::Unreadable),
        }
    }

    /// The contents of the file that `text_content` is saved as.
    pub fn save(text_content: &str) -> (contents: Vec<u8>)
        ensures
            contents@ == saved_bytes(text_content@),
    {
        text_content.as_bytes_vec()
    }
}

/// What a save writes, an open reads back as the same text.
pub proof fn open_inverts_save(text: Seq<char>)
    ensures
        opened_text(saved_bytes(text)) == Some(text),
{
    encode_utf8_valid_utf8(text);
    encode_utf8_decode_utf8(text);
}

/// Saving the text of an opened file writes the file's bytes again, each of
/// them.
pub proof fn save_inverts_open(bytes: Seq<u8>)
    requires
        opened_text(bytes) is Some,
    ensures
        saved_bytes(opened_text(bytes)->Some_0) == bytes,
{
    decode_utf8_encode_utf8(bytes);
}

} // verus!
