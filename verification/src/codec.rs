//! The binary codec of the stores that keep bytes.
use vstd::prelude::*;

verus! {

/// `bincode::ErrorKind`, what the codec reports when it fails. Opaque here.
#[verifier::external_type_specification]
#[verifier::external_body]
pub struct ExErrorKind(bincode::ErrorKind);

/// Calls `bincode::serialize`. What the bytes are depends on how `V` implements
/// `Serialize`, so the contract is silent about the result.
#[verifier::external_body]
pub(crate) fn encode<V: serde::Serialize>(value: &V) -> Result<Vec<u8>, Box<bincode::ErrorKind>> {
    bincode::serialize(value)
}

/// Calls `bincode::deserialize`. Whether the bytes decode, and to what, depends
/// on how `V` implements `Deserialize`, so the contract is silent about the
/// result.
#[verifier::external_body]
pub(crate) fn decode<V: serde::de::DeserializeOwned>(bytes: &Vec<u8>) -> Result<
    V,
    Box<bincode::ErrorKind>,
> {
    bincode::deserialize(bytes)
}

} // verus!
