//! What can go wrong when storing or fetching.
use std::fmt::Debug;
use vstd::prelude::*;

verus! {

/// Why a store or a fetch failed.
#[derive(Debug)]
pub enum StoreError {
    /// Nothing is stored under the requested type and key. Holds the key as
    /// `{:?}` prints it.
    NotFound(String),
    /// The value could not be turned into bytes. Holds the codec's error.
    Encode(Box<bincode::ErrorKind>),
    /// The stored bytes could not be turned into a value of the requested
    /// type. Holds the codec's error.
    Decode(Box<bincode::ErrorKind>),
}

impl StoreError {
    /// The text that every "not found" message starts with.
    pub open spec fn not_found_prefix() -> Seq<char> {
        "No such key: "@
    }

    /// The outcome of a fetch that found nothing under `key`.
    pub fn missing<K: Debug>(key: &K) -> (error: StoreError)
        ensures
            error is NotFound,
    {
        StoreError::NotFound(debug_text(key))
    }

    /// The outcome of an encoding, with the codec's error made ours.
    pub fn encoded(outcome: Result<Vec<u8>, Box<bincode::ErrorKind>>) -> (bytes: Result<
        Vec<u8>,
        StoreError,
    >)
        ensures
            bytes == match outcome {
                Ok(data) => Ok::<Vec<u8>, StoreError>(data),
                Err(cause) => Err(StoreError::Encode(cause)),
            },
    {
        match outcome {
            Ok(data) => Ok(data),
            Err(cause) => Err(StoreError::Encode(cause)),
        }
    }

    /// The outcome of a decoding, with the codec's error made ours.
    pub fn decoded<V>(outcome: Result<V, Box<bincode::ErrorKind>>) -> (value: Result<V, StoreError>)
        ensures
            value == match outcome {
                Ok(v) => Ok::<V, StoreError>(v),
                Err(cause) => Err(StoreError::Decode(cause)),
            },
    {
        match outcome {
            Ok(v) => Ok(v),
            Err(cause) => Err(StoreError::Decode(cause)),
        }
    }

    /// The error as one line of text: for a missing key, `No such key: ` and
    /// the key; for a codec failure, what the codec says of it.
    pub fn message(&self) -> (text: String)
        ensures
            match *self {
                StoreError::NotFound(key) => text@ == Self::not_found_prefix() + key@,
                StoreError::Encode(cause) => vstd::string::to_string_from_display_ensures::<
                    bincode::ErrorKind,
                >(&*cause, text),
                StoreError::Decode(cause) => vstd::string::to_string_from_display_ensures::<
                    bincode::ErrorKind,
                >(&*cause, text),
            },
    {
        match self {
            StoreError::NotFound(key) => {
                let mut text = "No such key: ".to_owned();
                append(&mut text, key.as_str());
                text
            },
            StoreError::Encode(cause) => (**cause).to_string(),
            StoreError::Decode(cause) => (**cause).to_string(),
        }
    }
}

/// Formats `key` with `{:?}`. What comes out depends on how `K` implements
/// `Debug`, so the contract is silent about the result.
#[verifier::external_body]
fn debug_text<K: Debug>(key: &K) -> String {
    format!("{:?}", key)
}

/// Calls `String::push_str`. The contract claims what its documentation says:
/// the text is the old text followed by `tail`.
#[verifier::external_body]
fn append(text: &mut String, tail: &str)
    ensures
        final(text)@ == old(text)@ + tail@,
{
    text.push_str(tail)
}

} // verus!
