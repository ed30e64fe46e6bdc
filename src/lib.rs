//! Dehydrated devices: an encryption identity escrowed on the server as a
//! virtual device, its rehydration, and the classification of the to-device
//! events it buffered.

pub mod account;
pub mod dehydrated_devices;
pub mod device_keys;
pub mod error;
pub mod events;
pub mod identity;
pub mod olm;
pub mod pickle_key;
pub mod sessions;
pub mod store;
pub mod verification;
pub mod wire;
