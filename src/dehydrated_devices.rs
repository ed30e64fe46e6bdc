use vstd::prelude::*;

use crate::device_keys::{self_signature_spec, DeviceKeys, PrivateCrossSigningIdentity};
use crate::error::DehydrationError;
use crate::events::{outcomes, process_to_device_events, processed_as, room_keys_in, DecryptionSettings, RawToDeviceEvent};
use crate::identity::{rehydrates, DehydratedDeviceData, Identity, SignedKey};
use crate::pickle_key::DehydratedDeviceKey;
use crate::sessions::{import_all_spec, info_of, InboundGroupSession, RoomKeyInfo};
use crate::store::{Changes, Store, StoreTransaction};
use crate::verification::SenderDevice;
use crate::wire::OlmPlaintext;

verus! {

/// A user's device as the library sees it: its ids, its store and the
/// user's private cross-signing identity.
pub struct OlmMachine {
    pub user_id: String,
    pub device_id: String,
    pub store: Store,
    pub private_identity: PrivateCrossSigningIdentity,
}

impl OlmMachine {
    /// A device with an empty store.
    pub fn new(user_id: String, device_id: String, private_identity: PrivateCrossSigningIdentity) -> (r: OlmMachine)
        ensures
            r.user_id == user_id,
            r.device_id == device_id,
            r.private_identity == private_identity,
            r.store.wf(),
            r.store.account is None,
            r.store.inbound_group_sessions@.len() == 0,
            r.store.dehydrated_device_pickle_key is None,
    {
        OlmMachine { user_id, device_id, store: Store::new(), private_identity }
    }
}

/// The request that uploads a dehydrated device.
pub struct UploadRequest {
    pub device_id: String,
    /// The encrypted private parts of the device.
    pub device_data: DehydratedDeviceData,
    /// The device's public keys, signed by the device and by the user's
    /// self-signing key.
    pub device_keys: DeviceKeys,
    /// The one-time keys, signed by the device.
    pub one_time_keys: Vec<SignedKey>,
    /// The fallback key, signed by the device.
    pub fallback_keys: Vec<SignedKey>,
    pub initial_device_display_name: Option<String>,
}

/// Creates and rehydrates dehydrated devices for a device, and caches the
/// pickle key.
pub struct DehydratedDevices {
    pub inner: OlmMachine,
}

/// A dehydrated device not yet uploaded: a fresh identity in a store of its own.
pub struct DehydratedDevice {
    pub store: Store,
    pub private_identity: PrivateCrossSigningIdentity,
}

/// A rehydrated device, which decrypts the events buffered for it and hands
/// the room keys it finds to the user's own device.
pub struct RehydratedDevice {
    pub rehydrated: OlmMachine,
}

impl DehydratedDevices {
    /// The dehydration manager of a device.
    pub fn new(inner: OlmMachine) -> (r: DehydratedDevices)
        ensures
            r.inner == inner,
    {
        DehydratedDevices { inner }
    }

    /// Creates a fresh dehydrated device in a store of its own, where it is
    /// saved at once.
    pub fn create(&self) -> (r: DehydratedDevice)
        ensures
            r.wf(),
            r.private_identity == self.inner.private_identity,
            r.store.inbound_group_sessions@.len() == 0,
            r.store.dehydrated_device_pickle_key is None,
            r.store.account matches Some(a) && a.user_id == self.inner.user_id && a.dehydrated
                && a.device_id == a.curve25519_key && !a.has_fallback_key,
    {
        let account = Identity::new_dehydrated(self.inner.user_id.clone());
        let mut store = Store::new();
        let mut changes = Changes::empty();
        changes.account = Some(account);
        store.save_changes(changes);
        assert(store.inbound_group_sessions@ =~= Seq::<InboundGroupSession>::empty());
        DehydratedDevice { store, private_identity: self.inner.private_identity }
    }

    /// Rebuilds a dehydrated device from the pickle key, its device id and
    /// its uploaded data; the encoding is the one the data names.
    pub fn rehydrate(&self, pickle_key: &DehydratedDeviceKey, device_id: &String, device_data: &DehydratedDeviceData) -> (r: Result<RehydratedDevice, DehydrationError>)
        ensures
            r is Ok <==> rehydrates(pickle_key@, device_id@, *device_data),
            r matches Ok(d) ==> (d.rehydrated.store.wf() && d.rehydrated.user_id == self.inner.user_id
                && d.rehydrated.device_id == *device_id
                && d.rehydrated.store.inbound_group_sessions@.len() == 0
                && (d.rehydrated.store.account matches Some(a) && a.device_id == *device_id && a.dehydrated)),
            r matches Err(e) ==> match device_data {
                DehydratedDeviceData::V1 { .. } => e matches DehydrationError::LegacyPickle(_),
                DehydratedDeviceData::V2 { .. } => e matches DehydrationError::Pickle(_),
            },
    {
        let account = Identity::rehydrate(pickle_key, self.inner.user_id.clone(), device_id.clone(), device_data)?;
        let mut machine = OlmMachine::new(self.inner.user_id.clone(), device_id.clone(), self.inner.private_identity);
        let mut changes = Changes::empty();
        changes.account = Some(account);
        machine.store.save_changes(changes);
        assert(machine.store.inbound_group_sessions@ =~= Seq::<InboundGroupSession>::empty());
        Ok(RehydratedDevice { rehydrated: machine })
    }

    /// The cached pickle key, if any.
    pub fn get_dehydrated_device_pickle_key(&self) -> (r: Option<DehydratedDeviceKey>)
        ensures
            r == self.inner.store.dehydrated_device_pickle_key,
    {
        self.inner.store.load_dehydrated_device_pickle_key()
    }

    /// Caches a pickle key, in place of any earlier one.
    pub fn save_dehydrated_device_pickle_key(&mut self, dehydrated_device_pickle_key: &DehydratedDeviceKey)
        requires
            old(self).inner.store.wf(),
        ensures
            final(self).inner.store.wf(),
            final(self).inner.store.dehydrated_device_pickle_key == Some(*dehydrated_device_pickle_key),
            final(self).inner.store.inbound_group_sessions@ == old(self).inner.store.inbound_group_sessions@,
            final(self).inner.store.account == old(self).inner.store.account,
            final(self).inner.store.devices == old(self).inner.store.devices,
            final(self).inner.store.olm_sessions == old(self).inner.store.olm_sessions,
            final(self).inner.user_id == old(self).inner.user_id,
            final(self).inner.device_id == old(self).inner.device_id,
            final(self).inner.private_identity == old(self).inner.private_identity,
    {
        let mut changes = Changes::empty();
        changes.dehydrated_device_pickle_key = Some(*dehydrated_device_pickle_key);
        self.inner.store.save_changes(changes);
    }

    /// Forgets the cached pickle key.
    pub fn delete_dehydrated_device_pickle_key(&mut self)
        ensures
            final(self).inner.store.dehydrated_device_pickle_key is None,
            final(self).inner.store.inbound_group_sessions == old(self).inner.store.inbound_group_sessions,
            final(self).inner.store.account == old(self).inner.store.account,
            final(self).inner.store.devices == old(self).inner.store.devices,
            final(self).inner.store.olm_sessions == old(self).inner.store.olm_sessions,
            final(self).inner.user_id == old(self).inner.user_id,
            final(self).inner.device_id == old(self).inner.device_id,
            final(self).inner.private_identity == old(self).inner.private_identity,
    {
        self.inner.store.delete_dehydrated_device_pickle_key();
    }
}

impl DehydratedDevice {
    /// The store is well formed and holds the identity of a dehydrated device.
    pub open spec fn wf(&self) -> bool {
        self.store.wf() && (self.store.account matches Some(a) && a.dehydrated)
    }

    /// Builds the request that uploads this device, in one transaction: a
    /// fallback key is made if there is none, the device keys are signed with
    /// the self-signing key, and the identity is encrypted under the pickle
    /// key in the current encoding. On error the store is left as it was.
    pub fn keys_for_upload(&mut self, initial_device_display_name: String, pickle_key: &DehydratedDeviceKey) -> (r: Result<UploadRequest, DehydrationError>)
        requires
            old(self).wf(),
        ensures
            final(self).wf(),
            final(self).private_identity == old(self).private_identity,
            old(self).private_identity.self_signing_key is None ==> (r matches Err(e) && e matches DehydrationError::MissingSigningKey),
            r matches Err(e) ==> (e matches DehydrationError::MissingSigningKey || e matches DehydrationError::Pickle(_)),
            r matches Err(DehydrationError::MissingSigningKey) ==> old(self).private_identity.self_signing_key is None,
            r is Err ==> final(self).store.account == old(self).store.account,
            final(self).store.inbound_group_sessions == old(self).store.inbound_group_sessions,
            final(self).store.dehydrated_device_pickle_key == old(self).store.dehydrated_device_pickle_key,
            r matches Ok(req) ==> ({
                let a = old(self).store.account.unwrap();
                let b = final(self).store.account.unwrap();
                let keys = req.device_keys;
                let own = keys.signatures@[0];
                let cross = keys.signatures@[1];
                &&& old(self).private_identity.self_signing_key is Some
                &&& req.device_id == a.device_id
                &&& keys.user_id == a.user_id && keys.device_id == a.device_id && keys.dehydrated
                &&& keys.ed25519_key == a.ed25519_key && keys.curve25519_key == a.curve25519_key
                &&& keys.signatures@.len() == 2
                &&& own.signer == a.user_id && own.key_id@ == "ed25519:"@ + a.device_id@
                &&& (cross.signer@, cross.key_id@, cross.signature@) == self_signature_spec(a.user_id@, old(self).private_identity.self_signing_key.unwrap()@, keys)
                &&& forall|i: int| 0 <= i < req.one_time_keys@.len() ==> !(#[trigger] req.one_time_keys@[i]).fallback && req.one_time_keys@[i].signer == a.user_id
                &&& forall|i: int| 0 <= i < req.fallback_keys@.len() ==> (#[trigger] req.fallback_keys@[i]).fallback && req.fallback_keys@[i].signer == a.user_id
                &&& req.device_data matches DehydratedDeviceData::V2 { .. }
                &&& rehydrates(pickle_key@, req.device_id@, req.device_data)
                &&& req.initial_device_display_name == Some(initial_device_display_name)
                &&& b.has_fallback_key
                &&& b.user_id == a.user_id && b.device_id == a.device_id && b.dehydrated == a.dehydrated
                &&& b.ed25519_key == a.ed25519_key && b.curve25519_key == a.curve25519_key
            }),
    {
        let mut transaction = self.store.transaction();
        let mut account = transaction.account.unwrap();
        account.generate_fallback_key_if_needed();
        let one_time_keys = account.signed_keys(&account.one_time_keys(), false);
        let fallback_keys = account.signed_keys(&account.fallback_keys(), true);
        let mut device_keys = account.device_keys();
        self.private_identity.sign_device_keys(&mut device_keys)?;
        let device_data = account.dehydrate(pickle_key)?;
        let device_id = account.device_id.clone();
        transaction.account = Some(account);
        transaction.commit(&mut self.store);
        Ok(UploadRequest {
            device_id,
            device_data,
            device_keys,
            one_time_keys,
            fallback_keys,
            initial_device_display_name: Some(initial_device_display_name),
        })
    }
}

/// The descriptors of a sequence of room keys.
pub open spec fn infos_of(s: Seq<InboundGroupSession>) -> Seq<RoomKeyInfo> {
    s.map_values(|x: InboundGroupSession| info_of(x))
}

/// The room keys that a batch of events brings, in the batch's order, where
/// its Olm messages decrypted to `plaintexts`.
pub open spec fn harvested(
    events: Seq<RawToDeviceEvent>,
    plaintexts: Seq<Option<OlmPlaintext>>,
    receiver: Identity,
    devices: Seq<SenderDevice>,
    settings: DecryptionSettings,
) -> Seq<InboundGroupSession> {
    room_keys_in(outcomes(events, plaintexts, receiver.user_id@, receiver.ed25519_key@, devices, settings))
}

/// The batch's Olm messages decrypted to `decrypted`, read as `plaintexts`,
/// with the receiver's identity and known devices.
pub open spec fn decrypted_as(
    events: Seq<RawToDeviceEvent>,
    decrypted: Seq<Option<Seq<u8>>>,
    plaintexts: Seq<Option<OlmPlaintext>>,
    receiver: Identity,
    devices: Seq<SenderDevice>,
    settings: DecryptionSettings,
) -> bool {
    processed_as(events, decrypted, plaintexts, receiver.user_id@, receiver.ed25519_key@, devices, settings,
        outcomes(events, plaintexts, receiver.user_id@, receiver.ed25519_key@, devices, settings))
}

impl RehydratedDevice {
    /// The rehydrated store is well formed and holds the identity.
    pub open spec fn wf(&self) -> bool {
        self.rehydrated.store.wf() && self.rehydrated.store.account is Some
    }

    /// Decrypts a batch of buffered to-device events with the rehydrated
    /// identity, in a transaction of the rehydrated store; imports every room
    /// key they carry into the store of the user's own device; then commits the
    /// transaction and writes the same keys into the rehydrated store.
    /// Returns the descriptors of the room keys, in order. A room key passes
    /// whatever the trust of its sender; importing is idempotent, so a batch
    /// handled again leaves the same keys.
    pub fn receive_events(&mut self, own_device: &mut OlmMachine, events: Vec<RawToDeviceEvent>, decryption_settings: &DecryptionSettings) -> (r: Vec<RoomKeyInfo>)
        requires
            old(self).wf(),
            old(own_device).store.wf(),
        ensures
            final(self).wf(),
            final(own_device).store.wf(),
            exists|decrypted: Seq<Option<Seq<u8>>>, plaintexts: Seq<Option<OlmPlaintext>>| {
                let keys = harvested(events@, plaintexts, old(self).rehydrated.store.account.unwrap(), old(self).rehydrated.store.devices@, *decryption_settings);
                &&& #[trigger] decrypted_as(events@, decrypted, plaintexts, old(self).rehydrated.store.account.unwrap(), old(self).rehydrated.store.devices@, *decryption_settings)
                &&& final(own_device).store.inbound_group_sessions@ == import_all_spec(old(own_device).store.inbound_group_sessions@, keys)
                &&& final(self).rehydrated.store.inbound_group_sessions@ == import_all_spec(old(self).rehydrated.store.inbound_group_sessions@, keys)
                &&& r@ == infos_of(keys)
            },
            final(own_device).store.account == old(own_device).store.account,
            final(own_device).store.dehydrated_device_pickle_key == old(own_device).store.dehydrated_device_pickle_key,
            final(own_device).store.devices == old(own_device).store.devices,
            final(own_device).store.olm_sessions == old(own_device).store.olm_sessions,
            final(own_device).private_identity == old(own_device).private_identity,
            final(own_device).user_id == old(own_device).user_id,
            final(own_device).device_id == old(own_device).device_id,
            final(self).rehydrated.user_id == old(self).rehydrated.user_id,
            final(self).rehydrated.device_id == old(self).rehydrated.device_id,
    {
        let transaction = self.rehydrated.store.transaction();
        let mut account = transaction.account.unwrap();
        let ghost input = events@;
        let ghost receiver = account;
        let (processed, room_keys) = process_to_device_events(
            &mut account,
            &mut self.rehydrated.store.olm_sessions,
            &self.rehydrated.store.devices,
            events,
            decryption_settings,
        );
        let ghost (decrypted, plaintexts) = choose|d: Seq<Option<Seq<u8>>>, p: Seq<Option<OlmPlaintext>>|
            #[trigger] processed_as(input, d, p, receiver.user_id@, receiver.ed25519_key@, old(self).rehydrated.store.devices@, *decryption_settings, processed@);
        assert(decrypted_as(input, decrypted, plaintexts, old(self).rehydrated.store.account.unwrap(), old(self).rehydrated.store.devices@, *decryption_settings));
        assert(room_keys@ == harvested(input, plaintexts, old(self).rehydrated.store.account.unwrap(), old(self).rehydrated.store.devices@, *decryption_settings));
        own_device.store.save_inbound_group_sessions(&room_keys);
        let mut updates: Vec<RoomKeyInfo> = Vec::new();
        let mut i: usize = 0;
        while i < room_keys.len()
            invariant
                i <= room_keys@.len(),
                updates@ == infos_of(room_keys@.subrange(0, i as int)),
            decreases room_keys@.len() - i,
        {
            updates.push(room_keys[i].info());
            assert(infos_of(room_keys@.subrange(0, i + 1)) =~= infos_of(room_keys@.subrange(0, i as int)).push(info_of(room_keys@[i as int])));
            i = i + 1;
        }
        assert(room_keys@.subrange(0, room_keys@.len() as int) =~= room_keys@);
        let transaction = StoreTransaction { account: Some(account) };
        transaction.commit(&mut self.rehydrated.store);
        let mut changes = Changes::empty();
        changes.inbound_group_sessions = room_keys;
        self.rehydrated.store.save_changes(changes);
        assert(plaintexts.len() == input.len());
        updates
    }
}

} // verus!
