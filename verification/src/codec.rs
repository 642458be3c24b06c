//! The byte form of the persisted record, produced and read by `bincode`.
//!
//! Nothing in this module is proved: each item states what the crate
//! `bincode` does, and the rest of the library is verified against these
//! statements.
use vstd::prelude::*;

verus! {

/// The error type of `bincode`'s encoders, carried through as an opaque value.
#[verifier::external_type_specification]
#[verifier::external_body]
pub struct ExEncodeError(bincode::error::EncodeError);

/// The bytes that `bincode::encode_to_vec` produces, in its standard
/// configuration, for the tuple of the seven fields of a record; `None` where
/// it reports an error.
pub uninterp spec fn record_bytes(
    source: u8,
    interval: u64,
    secs: u64,
    nanos: u32,
    running: bool,
    stop_requested: bool,
    image: Seq<char>,
) -> Option<Seq<u8>>;

/// The tuple of seven fields that `bincode::borrow_decode_from_slice` reads,
/// in its standard configuration, from the front of `bytes`; `None` where it
/// reports an error.
pub uninterp spec fn record_of(bytes: Seq<u8>) -> Option<(u8, u64, u64, u32, bool, bool, Seq<char>)>;

/// Calls `bincode::encode_to_vec` on the tuple of the seven fields with
/// `bincode::config::standard()`.
///
/// Trusted: the outcome is the one named by [`record_bytes`], and bytes that
/// were produced decode, by [`record_of`], to the very fields that were
/// encoded (integers are written as variable-length integers, booleans as one
/// byte, the text as its length followed by its UTF-8 bytes, and the decoder
/// reads them back in the same order).
#[verifier::external_body]
pub(crate) fn encode_record(
    source: u8,
    interval: u64,
    secs: u64,
    nanos: u32,
    running: bool,
    stop_requested: bool,
    image: &str,
) -> (r: Result<Vec<u8>, bincode::error::EncodeError>)
    ensures
        match r {
            Ok(bytes) => {
                &&& record_bytes(source, interval, secs, nanos, running, stop_requested, image@)
                    == Some(bytes@)
                &&& record_of(bytes@) == Some(
                    (source, interval, secs, nanos, running, stop_requested, image@),
                )
            },
            Err(_) => record_bytes(source, interval, secs, nanos, running, stop_requested, image@)
                is None,
        },
{
    bincode::encode_to_vec(
        (source, interval, secs, nanos, running, stop_requested, image),
        bincode::config::standard(),
    )
}

/// Calls `bincode::borrow_decode_from_slice` for a tuple of the seven fields
/// with `bincode::config::standard()`, and copies the borrowed text.
///
/// Trusted: the outcome is the one named by [`record_of`]. Bytes after the
/// record are ignored. The borrowing decoder checks the length of the text
/// against the input before it reads, so no input makes it allocate more than
/// the input holds.
#[verifier::external_body]
pub(crate) fn decode_record(bytes: &[u8]) -> (r: Option<(u8, u64, u64, u32, bool, bool, String)>)
    ensures
        match r {
            Some(t) => record_of(bytes@) == Some((t.0, t.1, t.2, t.3, t.4, t.5, t.6@)),
            None => record_of(bytes@) is None,
        },
{
    let read = bincode::borrow_decode_from_slice::<(u8, u64, u64, u32, bool, bool, &str), _>(
        bytes,
        bincode::config::standard(),
    );
    match read {
        Ok(((source, interval, secs, nanos, running, stop_requested, image), _)) => Some(
            (source, interval, secs, nanos, running, stop_requested, image.to_string()),
        ),
        Err(_) => None,
    }
}

/// The text that `bincode` gives for one of its encoding errors, through the
/// error's `Display` implementation. Nothing is claimed of the text.
#[verifier::external_body]
pub(crate) fn encode_error_text(e: &bincode::error::EncodeError) -> (s: String) {
    e.to_string()
}

} // verus!
