use vstd::prelude::*;

use crate::device_keys::{json_string, push_json_string, push_text, string_of, DeviceKeys, DeviceSignature};
use crate::error::DehydrationError;
use crate::pickle_key::{legacy_key_of, DehydratedDeviceKey};
use vodozemac::olm::Account as OlmAccount;

verus! {

/// Relies on vodozemac's Olm account, which holds a device's private keys.
#[verifier::external_type_specification]
#[verifier::external_body]
pub struct ExOlmAccount(OlmAccount);

/// The number of one-time keys a fresh dehydrated device publishes.
pub const ONE_TIME_KEY_COUNT: usize = 50;

/// The encrypted private parts of a dehydrated device, as uploaded. The
/// variant tells which encoding it uses.
#[derive(Debug, Clone, PartialEq, Eq)]
pub enum DehydratedDeviceData {
    /// The legacy encoding: a libolm pickle under a key derived from the
    /// pickle key and the device id. Only ever read.
    V1 { device_pickle: String },
    /// The current encoding.
    V2 { device_pickle: String, nonce: String },
}

/// A public one-time or fallback key, signed by its device.
#[derive(Debug, Clone, PartialEq, Eq)]
pub struct SignedKey {
    /// `signed_curve25519:` and the key's id.
    pub key_id: String,
    /// The public Curve25519 key, in base64.
    pub key: String,
    /// The key is a fallback key.
    pub fallback: bool,
    pub signer: String,
    /// `ed25519:` and the signing device's id.
    pub signing_key_id: String,
    pub signature: String,
}

/// The canonical JSON that a key's signature covers.
pub open spec fn signed_key_json_spec(key: Seq<char>, fallback: bool) -> Seq<char> {
    if fallback {
        "{\"fallback\":true,\"key\":"@ + json_string(key) + "}"@
    } else {
        "{\"key\":"@ + json_string(key) + "}"@
    }
}

/// The canonical JSON that a key's signature covers.
pub fn signed_key_json(key: &str, fallback: bool) -> (r: String)
    ensures
        r@ == signed_key_json_spec(key@, fallback),
{
    let mut out: Vec<char> = Vec::new();
    if fallback {
        push_text(&mut out, "{\"fallback\":true,\"key\":");
    } else {
        push_text(&mut out, "{\"key\":");
    }
    push_json_string(&mut out, key);
    push_text(&mut out, "}");
    assert(out@ =~= signed_key_json_spec(key@, fallback));
    string_of(&out)
}

/// The JSON of uploaded device data; its `algorithm` names the encoding.
pub open spec fn device_data_json_spec(d: DehydratedDeviceData) -> Seq<char> {
    match d {
        DehydratedDeviceData::V1 { device_pickle } => "{\"algorithm\":\"org.matrix.msc3814.v1.olm\",\"device_pickle\":"@
            + json_string(device_pickle@) + "}"@,
        DehydratedDeviceData::V2 { device_pickle, nonce } => "{\"algorithm\":\"org.matrix.msc3814.v2\",\"device_pickle\":"@
            + json_string(device_pickle@) + ",\"nonce\":"@ + json_string(nonce@) + "}"@,
    }
}

impl DehydratedDeviceData {
    /// The JSON of this data, as uploaded.
    pub fn to_json(&self) -> (r: String)
        ensures
            r@ == device_data_json_spec(*self),
    {
        let mut out: Vec<char> = Vec::new();
        match self {
            DehydratedDeviceData::V1 { device_pickle } => {
                push_text(&mut out, "{\"algorithm\":\"org.matrix.msc3814.v1.olm\",\"device_pickle\":");
                push_json_string(&mut out, device_pickle.as_str());
                push_text(&mut out, "}");
            },
            DehydratedDeviceData::V2 { device_pickle, nonce } => {
                push_text(&mut out, "{\"algorithm\":\"org.matrix.msc3814.v2\",\"device_pickle\":");
                push_json_string(&mut out, device_pickle.as_str());
                push_text(&mut out, ",\"nonce\":");
                push_json_string(&mut out, nonce.as_str());
                push_text(&mut out, "}");
            },
        }
        assert(out@ =~= device_data_json_spec(*self));
        string_of(&out)
    }
}

/// Uploaded device data decodes under the pickle key: the current encoding
/// under the key itself, the legacy one under the key derived from it and
/// the device id.
pub open spec fn rehydrates(pickle_key: Seq<u8>, device_id: Seq<char>, d: DehydratedDeviceData) -> bool {
    match d {
        DehydratedDeviceData::V1 { device_pickle } => libolm_pickle_decodes(device_pickle@, legacy_key_of(pickle_key, device_id)),
        DehydratedDeviceData::V2 { device_pickle, nonce } => dehydrated_device_decodes(device_pickle@, nonce@, pickle_key),
    }
}

/// A device's cryptographic identity: its Olm account and what is known of it.
pub struct Identity {
    pub user_id: String,
    pub device_id: String,
    /// The public Ed25519 key, in base64.
    pub ed25519_key: String,
    /// The public Curve25519 key, in base64.
    pub curve25519_key: String,
    /// The identity belongs to a dehydrated device.
    pub dehydrated: bool,
    /// A fallback key has been generated.
    pub has_fallback_key: bool,
    pub inner: OlmAccount,
}

/// Relies on vodozemac's `Account::new`: fresh random identity keys.
#[verifier::external_body]
fn new_olm_account() -> OlmAccount {
    OlmAccount::new()
}

/// Relies on vodozemac's `Account::ed25519_key`, written in base64.
#[verifier::external_body]
fn olm_ed25519_key(account: &OlmAccount) -> String {
    account.ed25519_key().to_base64()
}

/// Relies on vodozemac's `Account::curve25519_key`, written in base64.
#[verifier::external_body]
fn olm_curve25519_key(account: &OlmAccount) -> String {
    account.curve25519_key().to_base64()
}

/// Relies on vodozemac's `Account::generate_one_time_keys`.
#[verifier::external_body]
fn olm_generate_one_time_keys(account: &mut OlmAccount, count: usize) {
    account.generate_one_time_keys(count);
}

/// Relies on vodozemac's `Account::generate_fallback_key`.
#[verifier::external_body]
fn olm_generate_fallback_key(account: &mut OlmAccount) {
    account.generate_fallback_key();
}

/// Relies on vodozemac's `Account::one_time_keys`: the unpublished one-time
/// keys, each as its key id and public key in base64, in no given order.
#[verifier::external_body]
fn olm_one_time_keys(account: &OlmAccount) -> Vec<(String, String)> {
    account.one_time_keys().into_iter().map(|(id, key)| (id.to_base64(), key.to_base64())).collect()
}

/// Relies on vodozemac's `Account::fallback_key`: the unpublished fallback
/// key, as its key id and public key in base64.
#[verifier::external_body]
fn olm_fallback_key(account: &OlmAccount) -> Vec<(String, String)> {
    account.fallback_key().into_iter().map(|(id, key)| (id.to_base64(), key.to_base64())).collect()
}

/// Relies on vodozemac's `Account::sign`: an Ed25519 signature by the
/// account's key over the UTF-8 bytes of the message, in base64.
#[verifier::external_body]
fn olm_sign(account: &OlmAccount, message: &str) -> String {
    account.sign(message).to_base64()
}

/// Relies on vodozemac's `Account::pickle` and `Account::from_pickle`, which
/// restore the same account.
#[verifier::external_body]
fn olm_copy(account: &OlmAccount) -> OlmAccount {
    OlmAccount::from_pickle(account.pickle())
}

/// Whether vodozemac's `Account::from_dehydrated_device` restores an account
/// from this ciphertext and nonce under this key.
pub uninterp spec fn dehydrated_device_decodes(ciphertext: Seq<char>, nonce: Seq<char>, key: Seq<u8>) -> bool;

/// Whether vodozemac's `Account::from_libolm_pickle` restores an account
/// from this pickle under this key.
pub uninterp spec fn libolm_pickle_decodes(pickle: Seq<char>, key: Seq<u8>) -> bool;

/// Relies on vodozemac's `Account::to_dehydrated_device`: the encrypted
/// account and its nonce, in base64, which `from_dehydrated_device` restores
/// under the same key.
#[verifier::external_body]
fn olm_to_dehydrated_device(account: &OlmAccount, key: &[u8; 32]) -> (r: Result<(String, String), vodozemac::DehydratedDeviceError>)
    ensures
        r matches Ok((c, n)) ==> dehydrated_device_decodes(c@, n@, key@),
{
    account.to_dehydrated_device(key).map(|r| (r.ciphertext, r.nonce))
}

/// Relies on vodozemac's `Account::from_dehydrated_device`, a function of
/// its arguments.
#[verifier::external_body]
fn olm_from_dehydrated_device(ciphertext: &str, nonce: &str, key: &[u8; 32]) -> (r: Result<OlmAccount, vodozemac::DehydratedDeviceError>)
    ensures
        r is Ok <==> dehydrated_device_decodes(ciphertext@, nonce@, key@),
{
    OlmAccount::from_dehydrated_device(ciphertext, nonce, key)
}

/// Relies on vodozemac's `Account::from_libolm_pickle`, a function of its
/// arguments.
#[verifier::external_body]
fn olm_from_libolm_pickle(pickle: &str, key: &[u8; 32]) -> (r: Result<OlmAccount, vodozemac::LibolmPickleError>)
    ensures
        r is Ok <==> libolm_pickle_decodes(pickle@, key@),
{
    OlmAccount::from_libolm_pickle(pickle, key)
}

/// Relies on vodozemac's `Account::to_libolm_pickle`: a pickle that
/// `from_libolm_pickle` restores under the same key.
#[verifier::external_body]
fn olm_to_libolm_pickle(account: &OlmAccount, key: &[u8; 32]) -> (r: Result<String, vodozemac::LibolmPickleError>)
    ensures
        r matches Ok(p) ==> libolm_pickle_decodes(p@, key@),
{
    account.to_libolm_pickle(key)
}

impl Identity {
    /// An identity around an Olm account, under the given ids.
    fn from_account(inner: OlmAccount, user_id: String, device_id: String, dehydrated: bool) -> (r: Identity)
        ensures
            r.user_id == user_id,
            r.device_id == device_id,
            r.dehydrated == dehydrated,
            !r.has_fallback_key,
    {
        let ed25519_key = olm_ed25519_key(&inner);
        let curve25519_key = olm_curve25519_key(&inner);
        Identity { user_id, device_id, ed25519_key, curve25519_key, dehydrated, has_fallback_key: false, inner }
    }

    /// A fresh identity for a dehydrated device. Its device id is its
    /// Curve25519 key, and it holds a batch of one-time keys to publish.
    pub fn new_dehydrated(user_id: String) -> (r: Identity)
        ensures
            r.user_id == user_id,
            r.device_id == r.curve25519_key,
            r.dehydrated,
            !r.has_fallback_key,
    {
        let mut inner = new_olm_account();
        olm_generate_one_time_keys(&mut inner, ONE_TIME_KEY_COUNT);
        let ed25519_key = olm_ed25519_key(&inner);
        let curve25519_key = olm_curve25519_key(&inner);
        let device_id = curve25519_key.clone();
        Identity { user_id, device_id, ed25519_key, curve25519_key, dehydrated: true, has_fallback_key: false, inner }
    }

    /// A copy of this identity, holding a copy of its Olm account.
    pub fn copy(&self) -> (r: Identity)
        ensures
            r.user_id == self.user_id,
            r.device_id == self.device_id,
            r.ed25519_key == self.ed25519_key,
            r.curve25519_key == self.curve25519_key,
            r.dehydrated == self.dehydrated,
            r.has_fallback_key == self.has_fallback_key,
    {
        Identity {
            user_id: self.user_id.clone(),
            device_id: self.device_id.clone(),
            ed25519_key: self.ed25519_key.clone(),
            curve25519_key: self.curve25519_key.clone(),
            dehydrated: self.dehydrated,
            has_fallback_key: self.has_fallback_key,
            inner: olm_copy(&self.inner),
        }
    }

    /// Generates a fallback key unless one exists; a second call changes nothing.
    pub fn generate_fallback_key_if_needed(&mut self)
        ensures
            final(self).has_fallback_key,
            old(self).has_fallback_key ==> *final(self) == *old(self),
            final(self).user_id == old(self).user_id,
            final(self).device_id == old(self).device_id,
            final(self).ed25519_key == old(self).ed25519_key,
            final(self).curve25519_key == old(self).curve25519_key,
            final(self).dehydrated == old(self).dehydrated,
    {
        if !self.has_fallback_key {
            olm_generate_fallback_key(&mut self.inner);
            self.has_fallback_key = true;
        }
    }

    /// Signs a message with the device's Ed25519 key.
    pub fn sign(&self, message: &str) -> String {
        olm_sign(&self.inner, message)
    }

    /// The device's public keys, signed by the device itself.
    pub fn device_keys(&self) -> (r: DeviceKeys)
        ensures
            r.user_id == self.user_id,
            r.device_id == self.device_id,
            r.ed25519_key == self.ed25519_key,
            r.curve25519_key == self.curve25519_key,
            r.dehydrated == self.dehydrated,
            r.signatures@.len() == 1,
            r.signatures@[0].signer == self.user_id,
            r.signatures@[0].key_id@ == "ed25519:"@ + self.device_id@,
    {
        let mut keys = DeviceKeys {
            user_id: self.user_id.clone(),
            device_id: self.device_id.clone(),
            ed25519_key: self.ed25519_key.clone(),
            curve25519_key: self.curve25519_key.clone(),
            dehydrated: self.dehydrated,
            signatures: Vec::new(),
        };
        let message = keys.canonical_json();
        let signature = self.sign(message.as_str());
        let mut key_id: Vec<char> = Vec::new();
        push_text(&mut key_id, "ed25519:");
        push_text(&mut key_id, self.device_id.as_str());
        keys.signatures.push(DeviceSignature { signer: self.user_id.clone(), key_id: string_of(&key_id), signature });
        keys
    }

    /// Signs public one-time or fallback keys with the device's key. Each
    /// comes under the id `signed_curve25519:` and its own key id; a signature
    /// covers the canonical JSON of the key and, for a fallback key, its mark.
    pub fn signed_keys(&self, keys: &Vec<(String, String)>, fallback: bool) -> (r: Vec<SignedKey>)
        ensures
            r@.len() == keys@.len(),
            forall|i: int| 0 <= i < keys@.len() ==> {
                &&& (#[trigger] r@[i]).key_id@ == "signed_curve25519:"@ + keys@[i].0@
                &&& r@[i].key == keys@[i].1
                &&& r@[i].fallback == fallback
                &&& r@[i].signer == self.user_id
                &&& r@[i].signing_key_id@ == "ed25519:"@ + self.device_id@
            },
    {
        let mut out: Vec<SignedKey> = Vec::new();
        let mut i: usize = 0;
        while i < keys.len()
            invariant
                i <= keys@.len(),
                out@.len() == i,
                forall|j: int| 0 <= j < i ==> {
                    &&& (#[trigger] out@[j]).key_id@ == "signed_curve25519:"@ + keys@[j].0@
                    &&& out@[j].key == keys@[j].1
                    &&& out@[j].fallback == fallback
                    &&& out@[j].signer == self.user_id
                    &&& out@[j].signing_key_id@ == "ed25519:"@ + self.device_id@
                },
            decreases keys@.len() - i,
        {
            let (id, key) = &keys[i];
            let message = signed_key_json(key.as_str(), fallback);
            let signature = self.sign(message.as_str());
            let mut key_id: Vec<char> = Vec::new();
            push_text(&mut key_id, "signed_curve25519:");
            push_text(&mut key_id, id.as_str());
            let mut signing_key_id: Vec<char> = Vec::new();
            push_text(&mut signing_key_id, "ed25519:");
            push_text(&mut signing_key_id, self.device_id.as_str());
            out.push(SignedKey {
                key_id: string_of(&key_id),
                key: key.clone(),
                fallback,
                signer: self.user_id.clone(),
                signing_key_id: string_of(&signing_key_id),
                signature,
            });
            i = i + 1;
        }
        out
    }

    /// The unpublished one-time keys, as key id and public key.
    pub fn one_time_keys(&self) -> Vec<(String, String)> {
        olm_one_time_keys(&self.inner)
    }

    /// The unpublished fallback key, as key id and public key.
    pub fn fallback_keys(&self) -> Vec<(String, String)> {
        olm_fallback_key(&self.inner)
    }

    /// Encrypts the private parts under the pickle key, in the current encoding.
    pub fn dehydrate(&self, pickle_key: &DehydratedDeviceKey) -> (r: Result<DehydratedDeviceData, DehydrationError>)
        ensures
            r matches Ok(d) ==> (d matches DehydratedDeviceData::V2 { .. } && rehydrates(pickle_key@, self.device_id@, d)),
            r matches Err(e) ==> e matches DehydrationError::Pickle(_),
    {
        match olm_to_dehydrated_device(&self.inner, pickle_key.as_bytes()) {
            Ok((device_pickle, nonce)) => Ok(DehydratedDeviceData::V2 { device_pickle, nonce }),
            Err(e) => Err(DehydrationError::Pickle(e)),
        }
    }

    /// Encrypts the private parts in the legacy encoding, under the key
    /// derived from the pickle key and the device id. Kept to test that old
    /// uploads stay readable; new uploads use `dehydrate`.
    pub fn legacy_dehydrate(&self, pickle_key: &DehydratedDeviceKey) -> (r: Result<DehydratedDeviceData, DehydrationError>)
        ensures
            r matches Ok(d) ==> (d matches DehydratedDeviceData::V1 { .. } && rehydrates(pickle_key@, self.device_id@, d)),
            r matches Err(e) ==> e matches DehydrationError::LegacyPickle(_),
    {
        let legacy_key = pickle_key.legacy_key(self.device_id.as_str());
        match olm_to_libolm_pickle(&self.inner, &legacy_key) {
            Ok(device_pickle) => Ok(DehydratedDeviceData::V1 { device_pickle }),
            Err(e) => Err(DehydrationError::LegacyPickle(e)),
        }
    }

    /// Rebuilds an identity from its uploaded data. The encoding is the one
    /// the data names; each has its own error.
    pub fn rehydrate(
        pickle_key: &DehydratedDeviceKey,
        user_id: String,
        device_id: String,
        device_data: &DehydratedDeviceData,
    ) -> (r: Result<Identity, DehydrationError>)
        ensures
            r is Ok <==> rehydrates(pickle_key@, device_id@, *device_data),
            r matches Ok(i) ==> (i.user_id == user_id && i.device_id == device_id && i.dehydrated && !i.has_fallback_key),
            r matches Err(e) ==> match device_data {
                DehydratedDeviceData::V1 { .. } => e matches DehydrationError::LegacyPickle(_),
                DehydratedDeviceData::V2 { .. } => e matches DehydrationError::Pickle(_),
            },
    {
        match device_data {
            DehydratedDeviceData::V1 { device_pickle } => {
                let legacy_key = pickle_key.legacy_key(device_id.as_str());
                match olm_from_libolm_pickle(device_pickle.as_str(), &legacy_key) {
                Ok(inner) => Ok(Identity::from_account(inner, user_id, device_id, true)),
                Err(e) => Err(DehydrationError::LegacyPickle(e)),
                }
            },
            DehydratedDeviceData::V2 { device_pickle, nonce } => match olm_from_dehydrated_device(device_pickle.as_str(), nonce.as_str(), pickle_key.as_bytes()) {
                Ok(inner) => Ok(Identity::from_account(inner, user_id, device_id, true)),
                Err(e) => Err(DehydrationError::Pickle(e)),
            },
        }
    }
}

} // verus!
