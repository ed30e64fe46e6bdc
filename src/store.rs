use vstd::prelude::*;

use crate::identity::Identity;
use crate::olm::OlmSessionEntry;
use crate::pickle_key::DehydratedDeviceKey;
use crate::verification::SenderDevice;
use crate::sessions::{
    import_all_spec, import_sessions, lookup, find_session, unique_ids,
    InboundGroupSession, lemma_index_of_range,
};

verus! {

/// Changes to write into a store in one step.
pub struct Changes {
    pub account: Option<Identity>,
    pub inbound_group_sessions: Vec<InboundGroupSession>,
    pub dehydrated_device_pickle_key: Option<DehydratedDeviceKey>,
}

/// The persisted state of one identity: its account, its room keys, and the
/// cached pickle key of its dehydrated device.
pub struct Store {
    pub account: Option<Identity>,
    /// The Olm sessions shared with other devices.
    pub olm_sessions: Vec<OlmSessionEntry>,
    /// The other devices this identity knows of.
    pub devices: Vec<SenderDevice>,
    pub inbound_group_sessions: Vec<InboundGroupSession>,
    pub dehydrated_device_pickle_key: Option<DehydratedDeviceKey>,
}

/// A pending change of a store's account. Dropping it leaves the store as it
/// was; `commit` writes it.
pub struct StoreTransaction {
    pub account: Option<Identity>,
}

impl Changes {
    /// No changes.
    pub fn empty() -> (r: Changes)
        ensures
            r.account is None,
            r.inbound_group_sessions@.len() == 0,
            r.dehydrated_device_pickle_key is None,
    {
        Changes { account: None, inbound_group_sessions: Vec::new(), dehydrated_device_pickle_key: None }
    }
}

impl Store {
    /// Room keys are unique by room id and session id.
    pub open spec fn wf(&self) -> bool {
        unique_ids(self.inbound_group_sessions@)
    }

    /// An empty store.
    pub fn new() -> (r: Store)
        ensures
            r.wf(),
            r.account is None,
            r.olm_sessions@.len() == 0,
            r.devices@.len() == 0,
            r.inbound_group_sessions@.len() == 0,
            r.dehydrated_device_pickle_key is None,
    {
        Store {
            account: None,
            olm_sessions: Vec::new(),
            devices: Vec::new(),
            inbound_group_sessions: Vec::new(),
            dehydrated_device_pickle_key: None,
        }
    }

    /// Opens a transaction over a copy of the account.
    pub fn transaction(&self) -> (r: StoreTransaction)
        ensures
            r.account is Some <==> self.account is Some,
            r.account matches Some(a) ==> (self.account matches Some(b) && a.device_id == b.device_id && a.user_id == b.user_id
                && a.has_fallback_key == b.has_fallback_key && a.dehydrated == b.dehydrated
                && a.ed25519_key == b.ed25519_key && a.curve25519_key == b.curve25519_key),
    {
        match &self.account {
            Some(a) => StoreTransaction { account: Some(a.copy()) },
            None => StoreTransaction { account: None },
        }
    }

    /// Writes changes: a new account replaces the old one, room keys are
    /// imported in order, a pickle key replaces the cached one.
    pub fn save_changes(&mut self, changes: Changes)
        requires
            old(self).wf(),
        ensures
            final(self).wf(),
            final(self).inbound_group_sessions@ == import_all_spec(old(self).inbound_group_sessions@, changes.inbound_group_sessions@),
            final(self).account == (match changes.account {
                Some(a) => Some(a),
                None => old(self).account,
            }),
            final(self).dehydrated_device_pickle_key == (match changes.dehydrated_device_pickle_key {
                Some(k) => Some(k),
                None => old(self).dehydrated_device_pickle_key,
            }),
            final(self).devices == old(self).devices,
            final(self).olm_sessions == old(self).olm_sessions,
    {
        let Changes { account, inbound_group_sessions, dehydrated_device_pickle_key } = changes;
        import_sessions(&mut self.inbound_group_sessions, &inbound_group_sessions);
        if account.is_some() {
            self.account = account;
        }
        if dehydrated_device_pickle_key.is_some() {
            self.dehydrated_device_pickle_key = dehydrated_device_pickle_key;
        }
    }

    /// Imports room keys in order.
    pub fn save_inbound_group_sessions(&mut self, sessions: &Vec<InboundGroupSession>)
        requires
            old(self).wf(),
        ensures
            final(self).wf(),
            final(self).inbound_group_sessions@ == import_all_spec(old(self).inbound_group_sessions@, sessions@),
            final(self).account == old(self).account,
            final(self).dehydrated_device_pickle_key == old(self).dehydrated_device_pickle_key,
            final(self).devices == old(self).devices,
            final(self).olm_sessions == old(self).olm_sessions,
    {
        import_sessions(&mut self.inbound_group_sessions, sessions);
    }

    /// The room key of this room and session id, if known.
    pub fn get_inbound_group_session(&self, room_id: &String, session_id: &String) -> (r: Option<InboundGroupSession>)
        ensures
            r == lookup(self.inbound_group_sessions@, room_id@, session_id@),
    {
        proof { lemma_index_of_range(self.inbound_group_sessions@, room_id@, session_id@); }
        match find_session(&self.inbound_group_sessions, room_id, session_id) {
            Some(j) => Some(self.inbound_group_sessions[j].copy()),
            None => None,
        }
    }

    /// The cached pickle key, if any.
    pub fn load_dehydrated_device_pickle_key(&self) -> (r: Option<DehydratedDeviceKey>)
        ensures
            r == self.dehydrated_device_pickle_key,
    {
        self.dehydrated_device_pickle_key
    }

    /// Forgets the cached pickle key.
    pub fn delete_dehydrated_device_pickle_key(&mut self)
        ensures
            final(self).dehydrated_device_pickle_key is None,
            final(self).account == old(self).account,
            final(self).inbound_group_sessions == old(self).inbound_group_sessions,
            final(self).devices == old(self).devices,
            final(self).olm_sessions == old(self).olm_sessions,
    {
        self.dehydrated_device_pickle_key = None;
    }
}

impl StoreTransaction {
    /// Writes the transaction's account into the store.
    pub fn commit(self, store: &mut Store)
        ensures
            final(store).account == (match self.account {
                Some(a) => Some(a),
                None => old(store).account,
            }),
            final(store).inbound_group_sessions == old(store).inbound_group_sessions,
            final(store).dehydrated_device_pickle_key == old(store).dehydrated_device_pickle_key,
            final(store).devices == old(store).devices,
            final(store).olm_sessions == old(store).olm_sessions,
    {
        if self.account.is_some() {
            store.account = self.account;
        }
    }
}

} // verus!
