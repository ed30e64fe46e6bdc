use dehydration::dehydrated_devices::{DehydratedDevices, OlmMachine, UploadRequest};
use dehydration::device_keys::{DeviceKeys, PrivateCrossSigningIdentity};
use dehydration::error::DehydrationError;
use dehydration::events::{DecryptionSettings, RawToDeviceEvent, TrustRequirement};
use dehydration::identity::{signed_key_json, DehydratedDeviceData, Identity};
use dehydration::pickle_key::DehydratedDeviceKey;
use dehydration::wire::{device_data_from_fields, parse_device_data};

fn pickle_key() -> DehydratedDeviceKey {
    DehydratedDeviceKey::from_bytes(&[0u8; 32])
}

fn signing() -> PrivateCrossSigningIdentity {
    PrivateCrossSigningIdentity { self_signing_key: Some([7u8; 32]) }
}

fn machine(device_id: &str) -> OlmMachine {
    OlmMachine::new("@alice:localhost".to_owned(), device_id.to_owned(), signing())
}

fn account_keys(i: &Identity) -> (String, String) {
    (i.ed25519_key.clone(), i.curve25519_key.clone())
}

#[test]
fn test_pickle_key_wrong_lengths() {
    for len in [0usize, 1, 31, 33, 64] {
        let bytes = vec![1u8; len];
        match DehydratedDeviceKey::from_slice(&bytes) {
            Err(DehydrationError::PickleKeyLength(n)) => assert_eq!(n, len),
            _ => panic!("a key of {len} bytes must be refused"),
        }
    }
}

#[test]
fn test_pickle_key_from_slice() {
    let bytes: Vec<u8> = (0u8..32).collect();
    let key = DehydratedDeviceKey::from_slice(&bytes).expect("32 bytes make a key");
    assert_eq!(key.as_bytes().to_vec(), bytes);
}

#[test]
fn test_pickle_key_base64() {
    assert_eq!(pickle_key().to_base64(), "A".repeat(43));
    let key = DehydratedDeviceKey::from_bytes(&[255u8; 32]);
    assert_eq!(key.to_base64(), format!("{}8", "/".repeat(42)));
}

#[test]
fn test_pickle_key_new_is_random() {
    let a = DehydratedDeviceKey::new();
    let b = DehydratedDeviceKey::new();
    assert_ne!(a.as_bytes(), b.as_bytes());
}

#[test]
fn test_legacy_key_depends_on_device() {
    let key = pickle_key();
    let a = key.legacy_key("DEVICEA");
    let b = key.legacy_key("DEVICEB");
    assert_eq!(a, key.legacy_key("DEVICEA"));
    assert_ne!(a, b);
    assert_ne!(&a, key.as_bytes());
}

#[test]
fn test_dehydrated_device_creation() {
    let manager = DehydratedDevices::new(machine("ALICEDEVICE"));
    let mut device = manager.create();
    let request = device
        .keys_for_upload("Foo".to_owned(), &pickle_key())
        .expect("We should be able to create a request to upload a dehydrated device");

    assert!(!request.one_time_keys.is_empty());
    assert_eq!(request.one_time_keys.len(), 50);
    assert_eq!(request.fallback_keys.len(), 1);
    assert!(request.device_keys.dehydrated);
    assert_eq!(request.device_keys.user_id, "@alice:localhost");
    assert_eq!(request.device_id, request.device_keys.curve25519_key);
    assert_eq!(request.initial_device_display_name.as_deref(), Some("Foo"));
    assert!(matches!(request.device_data, DehydratedDeviceData::V2 { .. }));
    assert!(device.store.account.as_ref().unwrap().has_fallback_key);
}

#[test]
fn test_device_keys_signature_verifies() {
    let manager = DehydratedDevices::new(machine("ALICEDEVICE"));
    let mut device = manager.create();
    let request = device.keys_for_upload("Foo".to_owned(), &pickle_key()).unwrap();
    let keys = &request.device_keys;
    assert_eq!(keys.signatures.len(), 2);
    let own = &keys.signatures[0];
    assert_eq!(own.key_id, format!("ed25519:{}", request.device_id));
    let device_key = vodozemac::Ed25519PublicKey::from_base64(&keys.ed25519_key).unwrap();
    let own_signature = vodozemac::Ed25519Signature::from_base64(&own.signature).unwrap();
    device_key.verify(keys.canonical_json().as_bytes(), &own_signature).expect("the device signs its own keys");
    for signed in request.one_time_keys.iter().chain(request.fallback_keys.iter()) {
        assert!(signed.key_id.starts_with("signed_curve25519:"));
        let signature = vodozemac::Ed25519Signature::from_base64(&signed.signature).unwrap();
        device_key
            .verify(signed_key_json(&signed.key, signed.fallback).as_bytes(), &signature)
            .expect("the device signs its one-time and fallback keys");
    }
    assert!(request.fallback_keys.iter().all(|k| k.fallback));
    assert!(request.one_time_keys.iter().all(|k| !k.fallback));
    let sig = &keys.signatures[1];
    assert_eq!(sig.signer, "@alice:localhost");
    let secret = vodozemac::Ed25519SecretKey::from_slice(&[7u8; 32]);
    let public = secret.public_key();
    assert_eq!(sig.key_id, format!("ed25519:{}", public.to_base64()));
    let signature = vodozemac::Ed25519Signature::from_base64(&sig.signature).unwrap();
    public.verify(keys.canonical_json().as_bytes(), &signature).expect("the signature covers the canonical JSON");
}

#[test]
fn test_missing_signing_key() {
    let owner = OlmMachine::new(
        "@alice:localhost".to_owned(),
        "ALICEDEVICE".to_owned(),
        PrivateCrossSigningIdentity { self_signing_key: None },
    );
    let manager = DehydratedDevices::new(owner);
    let mut device = manager.create();
    let result = device.keys_for_upload("Foo".to_owned(), &pickle_key());
    assert!(matches!(result, Err(DehydrationError::MissingSigningKey)));
    assert!(!device.store.account.as_ref().unwrap().has_fallback_key);
}

#[test]
fn test_fallback_key_is_made_once() {
    let manager = DehydratedDevices::new(machine("ALICEDEVICE"));
    let mut device = manager.create();
    let first = device.keys_for_upload("Foo".to_owned(), &pickle_key()).unwrap();
    let second = device.keys_for_upload("Foo".to_owned(), &pickle_key()).unwrap();
    assert_eq!(first.fallback_keys, second.fallback_keys);
}

#[test]
fn test_round_trip_current_encoding() {
    let manager = DehydratedDevices::new(machine("ALICEDEVICE"));
    let mut device = manager.create();
    let before = account_keys(device.store.account.as_ref().unwrap());
    let request = device.keys_for_upload("Foo".to_owned(), &pickle_key()).unwrap();

    let rehydrated = manager
        .rehydrate(&pickle_key(), &request.device_id, &request.device_data)
        .expect("We should be able to rehydrate the device");
    let account = rehydrated.rehydrated.store.account.as_ref().unwrap();
    assert_eq!(rehydrated.rehydrated.device_id, request.device_id);
    assert_eq!(account.device_id, request.device_id);
    assert_eq!(account_keys(account), before);
}

#[test]
fn test_round_trip_legacy_encoding() {
    let manager = DehydratedDevices::new(machine("ALICEDEVICE"));
    let device = manager.create();
    let identity = device.store.account.as_ref().unwrap();
    let data = identity.legacy_dehydrate(&pickle_key()).expect("a fresh account can be pickled");
    assert!(matches!(data, DehydratedDeviceData::V1 { .. }));

    let rehydrated = manager
        .rehydrate(&pickle_key(), &identity.device_id, &data)
        .expect("We should be able to rehydrate a legacy device");
    let account = rehydrated.rehydrated.store.account.as_ref().unwrap();
    assert_eq!(account.device_id, identity.device_id);
    assert_eq!(account_keys(account), account_keys(identity));
}

#[test]
fn test_rehydrate_with_wrong_key_fails_per_encoding() {
    let manager = DehydratedDevices::new(machine("ALICEDEVICE"));
    let mut device = manager.create();
    let request = device.keys_for_upload("Foo".to_owned(), &pickle_key()).unwrap();
    let wrong = DehydratedDeviceKey::from_bytes(&[9u8; 32]);
    assert!(matches!(
        manager.rehydrate(&wrong, &request.device_id, &request.device_data),
        Err(DehydrationError::Pickle(_))
    ));

    let identity = device.store.account.as_ref().unwrap();
    let legacy = identity.legacy_dehydrate(&pickle_key()).unwrap();
    assert!(matches!(
        manager.rehydrate(&wrong, &identity.device_id, &legacy),
        Err(DehydrationError::LegacyPickle(_))
    ));

    let garbled = DehydratedDeviceData::V2 { device_pickle: "not base64!".to_owned(), nonce: "AAAA".to_owned() };
    assert!(matches!(
        manager.rehydrate(&pickle_key(), &request.device_id, &garbled),
        Err(DehydrationError::Pickle(_))
    ));
}

#[test]
fn test_dehydrated_device_pickle_key_cache() {
    let mut manager = DehydratedDevices::new(machine("ALICEDEVICE"));
    assert!(manager.get_dehydrated_device_pickle_key().is_none());

    let key = DehydratedDeviceKey::new();
    manager.save_dehydrated_device_pickle_key(&key);
    let stored = manager.get_dehydrated_device_pickle_key().unwrap();
    assert_eq!(stored.as_bytes(), key.as_bytes());
    assert_eq!(stored.to_base64(), key.to_base64());

    let mut device = manager.create();
    let request = device.keys_for_upload("Foo".to_owned(), &stored).unwrap();
    manager
        .rehydrate(&stored, &request.device_id, &request.device_data)
        .expect("We should be able to rehydrate the device");

    manager.delete_dehydrated_device_pickle_key();
    assert!(manager.get_dehydrated_device_pickle_key().is_none());
}

/// Encrypts a to-device payload from Alice's own device for the uploaded
/// dehydrated device, on its one-time key number `index`.
fn encrypt_for_upload(request: &UploadRequest, index: usize, alice: &vodozemac::olm::Account, event_type: &str, content: &str) -> RawToDeviceEvent {
    let payload = format!(
        "{{\"type\":\"{event_type}\",\"content\":{content},\"sender\":\"@alice:localhost\",\"recipient\":\"@alice:localhost\",\"recipient_keys\":{{\"ed25519\":\"{}\"}},\"keys\":{{\"ed25519\":\"{}\"}}}}",
        request.device_keys.ed25519_key,
        alice.ed25519_key().to_base64()
    );
    let identity_key = vodozemac::Curve25519PublicKey::from_base64(&request.device_keys.curve25519_key).unwrap();
    let one_time_key = vodozemac::Curve25519PublicKey::from_base64(&request.one_time_keys[index].key).unwrap();
    let mut session = alice.create_outbound_session(vodozemac::olm::SessionConfig::version_1(), identity_key, one_time_key);
    let (message_type, bytes) = session.encrypt(payload).to_parts();
    RawToDeviceEvent::Encrypted {
        sender: "@alice:localhost".to_owned(),
        sender_key: alice.curve25519_key().to_base64(),
        message_type,
        ciphertext: vodozemac::base64_encode(bytes),
    }
}

fn room_key_content(room_id: &str, session_id: &str) -> String {
    format!("{{\"algorithm\":\"m.megolm.v1.aes-sha2\",\"room_id\":\"{room_id}\",\"session_id\":\"{session_id}\",\"session_key\":\"KEY\"}}")
}

#[test]
fn test_dehydrated_device_rehydration() {
    let room_id = "!test:example.org".to_owned();
    let session_id = "SESSION".to_owned();

    // Alice creates and uploads a dehydrated device, and keeps the pickle key.
    let mut alice = DehydratedDevices::new(machine("ALICEDEVICE"));
    let key = pickle_key();
    alice.save_dehydrated_device_pickle_key(&key);
    let mut device = alice.create();
    let request = device.keys_for_upload("Foo".to_owned(), &key).unwrap();

    // Alice's device opens an Olm session with the dehydrated device and
    // sends it a room key while no other device is online.
    let alice_olm = vodozemac::olm::Account::new();
    let event = encrypt_for_upload(&request, 0, &alice_olm, "m.room_key", &room_key_content(&room_id, &session_id));

    // Bob, a new device of the same user, does not know the room key.
    let mut bob = DehydratedDevices::new(machine("BOBDEVICE"));
    bob.save_dehydrated_device_pickle_key(&alice.get_dehydrated_device_pickle_key().unwrap());
    assert!(bob.inner.store.get_inbound_group_session(&room_id, &session_id).is_none());

    let cached = bob.get_dehydrated_device_pickle_key().unwrap();
    let mut rehydrated = bob
        .rehydrate(&cached, &request.device_id, &request.device_data)
        .expect("We should be able to rehydrate the device");
    assert_eq!(rehydrated.rehydrated.device_id, request.device_id);

    let settings = DecryptionSettings { sender_device_trust_requirement: TrustRequirement::Untrusted };
    let ret = rehydrated.receive_events(&mut bob.inner, vec![event], &settings);
    assert_eq!(ret.len(), 1, "The rehydrated device should have imported a room key");
    assert_eq!(ret[0].room_id, room_id);
    assert_eq!(ret[0].session_id, session_id);
    assert_eq!(ret[0].sender_key, alice_olm.curve25519_key().to_base64());

    let room_key = bob
        .inner
        .store
        .get_inbound_group_session(&room_id, &session_id)
        .expect("We should now have access to the room key");
    assert_eq!(room_key.session_id, session_id);
    assert_eq!(room_key.session_key, "KEY");
    assert_eq!(bob.inner.device_id, "BOBDEVICE");
    assert_eq!(rehydrated.rehydrated.store.olm_sessions.len(), 1);
}

#[test]
fn test_legacy_dehydrated_device_rehydration() {
    let mut alice = DehydratedDevices::new(machine("ALICEDEVICE"));
    let mut device = alice.create();
    let mut request = device.keys_for_upload("Foo".to_owned(), &pickle_key()).unwrap();
    request.device_data = device.store.account.as_ref().unwrap().legacy_dehydrate(&pickle_key()).unwrap();

    let alice_olm = vodozemac::olm::Account::new();
    let event = encrypt_for_upload(&request, 0, &alice_olm, "m.room_key", &room_key_content("!r:x", "S"));

    let mut bob = DehydratedDevices::new(machine("BOBDEVICE"));
    let mut rehydrated = bob.rehydrate(&pickle_key(), &request.device_id, &request.device_data).unwrap();
    let settings = DecryptionSettings { sender_device_trust_requirement: TrustRequirement::Untrusted };
    let ret = rehydrated.receive_events(&mut bob.inner, vec![event], &settings);
    assert_eq!(ret.len(), 1);
    assert!(bob.inner.store.get_inbound_group_session(&"!r:x".to_owned(), &"S".to_owned()).is_some());
    alice.delete_dehydrated_device_pickle_key();
}

#[test]
fn test_harvest_ignores_trust_gate_for_room_keys() {
    let mut alice = DehydratedDevices::new(machine("ALICEDEVICE"));
    let mut device = alice.create();
    let request = device.keys_for_upload("Foo".to_owned(), &pickle_key()).unwrap();
    let bob = DehydratedDevices::new(machine("BOBDEVICE"));
    let mut rehydrated = bob.rehydrate(&pickle_key(), &request.device_id, &request.device_data).unwrap();

    let olm = vodozemac::olm::Account::new();
    let events = vec![
        RawToDeviceEvent::Malformed,
        encrypt_for_upload(&request, 0, &olm, "m.custom", "{}"),
        encrypt_for_upload(&request, 1, &olm, "m.room_key", &room_key_content("!a:example.org", "S1")),
        encrypt_for_upload(&request, 2, &olm, "m.room_key", &room_key_content("!a:example.org", "S1")),
        encrypt_for_upload(&request, 3, &olm, "m.room_key", &room_key_content("!b:example.org", "S2")),
    ];
    let settings = DecryptionSettings { sender_device_trust_requirement: TrustRequirement::CrossSignedOrLegacy };
    let ret = rehydrated.receive_events(&mut alice.inner, events, &settings);
    assert_eq!(ret.len(), 3);
    assert_eq!(alice.inner.store.inbound_group_sessions.len(), 2);
    assert_eq!(rehydrated.rehydrated.store.inbound_group_sessions.len(), 2);
}

#[test]
fn test_canonical_json() {
    let keys = DeviceKeys {
        user_id: "@a\"b:c".to_owned(),
        device_id: "DEV".to_owned(),
        ed25519_key: "ED".to_owned(),
        curve25519_key: "CU".to_owned(),
        dehydrated: true,
        signatures: Vec::new(),
    };
    assert_eq!(
        keys.canonical_json(),
        "{\"algorithms\":[\"m.olm.v1.curve25519-aes-sha2\",\"m.megolm.v1.aes-sha2\"],\"dehydrated\":true,\"device_id\":\"DEV\",\"keys\":{\"curve25519:DEV\":\"CU\",\"ed25519:DEV\":\"ED\"},\"user_id\":\"@a\\\"b:c\"}"
    );
    let plain = DeviceKeys { dehydrated: false, user_id: "@u:\u{1}\\".to_owned(), ..keys };
    assert_eq!(
        plain.canonical_json(),
        "{\"algorithms\":[\"m.olm.v1.curve25519-aes-sha2\",\"m.megolm.v1.aes-sha2\"],\"device_id\":\"DEV\",\"keys\":{\"curve25519:DEV\":\"CU\",\"ed25519:DEV\":\"ED\"},\"user_id\":\"@u:\\u0001\\\\\"}"
    );
}

#[test]
fn test_new_dehydrated_identity() {
    let identity = Identity::new_dehydrated("@alice:localhost".to_owned());
    assert!(identity.dehydrated);
    assert_eq!(identity.device_id, identity.curve25519_key);
    assert_eq!(identity.curve25519_key.len(), 43);
    assert_eq!(identity.ed25519_key.len(), 43);
    assert_eq!(identity.one_time_keys().len(), 50);
    assert!(identity.fallback_keys().is_empty());
}

#[test]
fn test_signed_key_json() {
    assert_eq!(signed_key_json("KEY", false), "{\"key\":\"KEY\"}");
    assert_eq!(signed_key_json("KEY", true), "{\"fallback\":true,\"key\":\"KEY\"}");
}

#[test]
fn test_device_data_json() {
    let v2 = DehydratedDeviceData::V2 { device_pickle: "PICKLE".to_owned(), nonce: "NONCE".to_owned() };
    assert_eq!(
        v2.to_json(),
        "{\"algorithm\":\"org.matrix.msc3814.v2\",\"device_pickle\":\"PICKLE\",\"nonce\":\"NONCE\"}"
    );
    let v1 = DehydratedDeviceData::V1 { device_pickle: "OLD".to_owned() };
    assert_eq!(v1.to_json(), "{\"algorithm\":\"org.matrix.msc3814.v1.olm\",\"device_pickle\":\"OLD\"}");
    assert_eq!(parse_device_data(v2.to_json().as_bytes()).unwrap(), v2);
    assert_eq!(parse_device_data(v1.to_json().as_bytes()).unwrap(), v1);
    assert!(matches!(parse_device_data(b"{\"algorithm\":\"other\",\"device_pickle\":\"X\"}"), Err(DehydrationError::Json)));
    assert!(matches!(parse_device_data(b"{\"algorithm\":\"org.matrix.msc3814.v2\",\"device_pickle\":\"X\"}"), Err(DehydrationError::Json)));
    assert!(matches!(parse_device_data(b"not json"), Err(DehydrationError::Json)));
}

#[test]
fn test_rehydrate_from_uploaded_json() {
    let manager = DehydratedDevices::new(machine("ALICEDEVICE"));
    let mut device = manager.create();
    let before = account_keys(device.store.account.as_ref().unwrap());
    let request = device.keys_for_upload("Foo".to_owned(), &pickle_key()).unwrap();
    let uploaded = request.device_data.to_json();
    let data = parse_device_data(uploaded.as_bytes()).expect("the uploaded JSON reads back");
    let rehydrated = manager.rehydrate(&pickle_key(), &request.device_id, &data).unwrap();
    assert_eq!(account_keys(rehydrated.rehydrated.store.account.as_ref().unwrap()), before);
}

#[test]
fn test_device_data_from_fields() {
    let s = |x: &str| Some(x.to_owned());
    assert_eq!(
        device_data_from_fields(s("org.matrix.msc3814.v1.olm"), s("P"), None).unwrap(),
        DehydratedDeviceData::V1 { device_pickle: "P".to_owned() }
    );
    assert_eq!(
        device_data_from_fields(s("org.matrix.msc3814.v2"), s("P"), s("N")).unwrap(),
        DehydratedDeviceData::V2 { device_pickle: "P".to_owned(), nonce: "N".to_owned() }
    );
    assert!(matches!(device_data_from_fields(s("org.matrix.msc3814.v2"), s("P"), None), Err(DehydrationError::Json)));
    assert!(matches!(device_data_from_fields(s("other"), s("P"), s("N")), Err(DehydrationError::Json)));
    assert!(matches!(device_data_from_fields(None, s("P"), s("N")), Err(DehydrationError::Json)));
}
