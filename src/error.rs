use vstd::prelude::*;

verus! {

/// Relies on vodozemac's error for a dehydrated device that could not be decoded.
#[verifier::external_type_specification]
#[verifier::external_body]
pub struct ExDehydratedDeviceError(vodozemac::DehydratedDeviceError);

/// Relies on vodozemac's error for a libolm pickle that could not be decoded.
#[verifier::external_type_specification]
#[verifier::external_body]
pub struct ExLibolmPickleError(vodozemac::LibolmPickleError);

/// Errors of creating, uploading and rehydrating a dehydrated device.
#[derive(Debug)]
pub enum DehydrationError {
    /// The legacy (libolm) encoding of the device could not be decoded.
    LegacyPickle(vodozemac::LibolmPickleError),
    /// The current encoding of the device could not be decoded.
    Pickle(vodozemac::DehydratedDeviceError),
    /// The pickle key does not hold 32 bytes; the actual length is given.
    PickleKeyLength(usize),
    /// The device keys could not be signed: the self-signing key is missing.
    MissingSigningKey,
    /// Uploaded device data is not JSON of a known encoding.
    Json,
}

} // verus!
