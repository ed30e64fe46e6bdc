use dehydration::events::{
    classify_event, process_to_device_events, DecryptedContent, DecryptedPayload,
    DecryptionSettings, InvalidReason, ProcessedToDeviceEvent, RawToDeviceEvent, RoomKeyContent,
    TrustRequirement, UnableToDecryptReason,
};
use dehydration::identity::Identity;
use dehydration::wire::{
    check_plaintext, event_from_fields, parse_olm_plaintext, parse_to_device_event,
    plaintext_from_fields, OlmPlaintext,
};
use dehydration::sessions::SenderTrust;
use dehydration::verification::{
    verification_state, OwnerIdentity, SenderDevice, UnverifiedReason, VerificationState,
};

fn device(locally_trusted: bool, cross_signed: bool, identity: Option<OwnerIdentity>) -> SenderDevice {
    SenderDevice {
        user_id: "@bob:localhost".to_owned(),
        device_id: "BOBDEVICE".to_owned(),
        ed25519_key: "bobed".to_owned(),
        curve25519_key: "bobcurve".to_owned(),
        locally_trusted,
        cross_signed_by_owner: cross_signed,
        owner_identity: identity,
    }
}

fn encrypted_event() -> RawToDeviceEvent {
    RawToDeviceEvent::Encrypted {
        sender: "@bob:localhost".to_owned(),
        sender_key: "bobcurve".to_owned(),
        message_type: 0,
        ciphertext: "AAAA".to_owned(),
    }
}

fn classify(content: DecryptedContent, sender_device: Option<SenderDevice>, settings: &DecryptionSettings) -> ProcessedToDeviceEvent {
    classify_event(encrypted_event(), Some(DecryptedPayload { content, sender_device }), settings)
}

fn custom() -> DecryptedContent {
    DecryptedContent::Custom { event_type: "m.new_device".to_owned() }
}

fn room_key() -> DecryptedContent {
    DecryptedContent::RoomKey(RoomKeyContent {
        room_id: "!room:example.org".to_owned(),
        session_id: "SESSION".to_owned(),
        session_key: "KEY".to_owned(),
    })
}

fn strict() -> DecryptionSettings {
    DecryptionSettings { sender_device_trust_requirement: TrustRequirement::CrossSignedOrLegacy }
}

fn lax() -> DecryptionSettings {
    DecryptionSettings { sender_device_trust_requirement: TrustRequirement::Untrusted }
}

#[test]
fn test_trust_gate_refuses_custom_event() {
    let out = classify(custom(), Some(device(false, false, None)), &strict());
    assert_eq!(out, ProcessedToDeviceEvent::UnableToDecrypt(UnableToDecryptReason::UnverifiedSenderDevice));
}

#[test]
fn test_trust_gate_lets_room_key_pass() {
    let out = classify(room_key(), Some(device(false, false, None)), &strict());
    match out {
        ProcessedToDeviceEvent::Decrypted { content, encryption_info } => {
            assert_eq!(content, room_key());
            assert_eq!(encryption_info.sender_device_id.as_deref(), Some("BOBDEVICE"));
            assert_eq!(
                encryption_info.verification_state,
                VerificationState::Unverified(UnverifiedReason::UnverifiedDevice)
            );
        }
        other => panic!("expected a decrypted room key, got {other:?}"),
    }
}

#[test]
fn test_untrusted_accepts_unverified_custom_event() {
    let out = classify(custom(), Some(device(false, false, None)), &lax());
    assert!(matches!(out, ProcessedToDeviceEvent::Decrypted { .. }));
}

#[test]
fn test_verified_device_passes_trust_gate() {
    let out = classify(custom(), Some(device(true, false, None)), &strict());
    match out {
        ProcessedToDeviceEvent::Decrypted { encryption_info, .. } => {
            assert_eq!(encryption_info.verification_state, VerificationState::Verified);
            assert_eq!(encryption_info.sender, "@bob:localhost");
            assert_eq!(encryption_info.sender_key, "bobcurve");
        }
        other => panic!("expected a decrypted event, got {other:?}"),
    }
}

#[test]
fn test_unknown_device_custom_event_fails() {
    let out = classify(custom(), None, &lax());
    assert_eq!(out, ProcessedToDeviceEvent::UnableToDecrypt(UnableToDecryptReason::DecryptionFailure));
}

#[test]
fn test_unknown_device_room_key_passes() {
    let out = classify(room_key(), None, &strict());
    match out {
        ProcessedToDeviceEvent::Decrypted { encryption_info, .. } => {
            assert_eq!(encryption_info.sender_device_id, None);
        }
        other => panic!("expected a decrypted room key, got {other:?}"),
    }
}

/// Encrypts a to-device payload from `sender` for the receiver, with a new
/// Olm session on one of the receiver's one-time keys.
fn encrypt_for(receiver: &Identity, sender: &vodozemac::olm::Account, payload: &str) -> RawToDeviceEvent {
    let (_, one_time_key) = receiver.one_time_keys().into_iter().next().unwrap();
    let identity_key = vodozemac::Curve25519PublicKey::from_base64(&receiver.curve25519_key).unwrap();
    let one_time_key = vodozemac::Curve25519PublicKey::from_base64(&one_time_key).unwrap();
    let mut session = sender.create_outbound_session(vodozemac::olm::SessionConfig::version_1(), identity_key, one_time_key);
    let (message_type, bytes) = session.encrypt(payload).to_parts();
    let json = format!(
        "{{\"type\":\"m.room.encrypted\",\"sender\":\"@bob:localhost\",\"content\":{{\"algorithm\":\"m.olm.v1.curve25519-aes-sha2\",\"sender_key\":\"{}\",\"ciphertext\":{{\"{}\":{{\"type\":{},\"body\":\"{}\"}}}}}}}}",
        sender.curve25519_key().to_base64(),
        receiver.curve25519_key,
        message_type,
        vodozemac::base64_encode(bytes)
    );
    let event = parse_to_device_event(json.as_bytes(), &receiver.curve25519_key);
    assert!(matches!(event, RawToDeviceEvent::Encrypted { .. }));
    event
}

fn payload_json(event_type: &str, content: &str, receiver: &Identity, sender: &vodozemac::olm::Account) -> String {
    format!(
        "{{\"type\":\"{event_type}\",\"content\":{content},\"sender\":\"@bob:localhost\",\"recipient\":\"{}\",\"recipient_keys\":{{\"ed25519\":\"{}\"}},\"keys\":{{\"ed25519\":\"{}\"}}}}",
        receiver.user_id,
        receiver.ed25519_key,
        sender.ed25519_key().to_base64()
    )
}

fn known_sender(sender: &vodozemac::olm::Account) -> SenderDevice {
    SenderDevice {
        user_id: "@bob:localhost".to_owned(),
        device_id: "BOBDEVICE".to_owned(),
        ed25519_key: sender.ed25519_key().to_base64(),
        curve25519_key: sender.curve25519_key().to_base64(),
        locally_trusted: false,
        cross_signed_by_owner: false,
        owner_identity: None,
    }
}

#[test]
fn test_ordering_preserved() {
    let mut receiver = Identity::new_dehydrated("@alice:localhost".to_owned());
    let sender = vodozemac::olm::Account::new();
    let e1 = encrypt_for(&receiver, &sender, &payload_json("m.custom", "{\"a\":1}", &receiver, &sender));
    let e2 = parse_to_device_event("{\"type\":\"m.dummy\",\"sender\":\"@bob:localhost\",\"content\":{}}".as_bytes(), &receiver.curve25519_key);
    let e3 = parse_to_device_event("{\"sender\":\"@bob:localhost\",\"content\":{}}".as_bytes(), &receiver.curve25519_key);
    let e4 = RawToDeviceEvent::Encrypted {
        sender: "@bob:localhost".to_owned(),
        sender_key: sender.curve25519_key().to_base64(),
        message_type: 0,
        ciphertext: "garbled".to_owned(),
    };
    let mut sessions = Vec::new();
    let devices = vec![known_sender(&sender)];
    let (out, keys) = process_to_device_events(&mut receiver, &mut sessions, &devices, vec![e1, e2, e3, e4], &lax());
    assert_eq!(out.len(), 4);
    match &out[0] {
        ProcessedToDeviceEvent::Decrypted { content, encryption_info } => {
            assert_eq!(content, &DecryptedContent::Custom { event_type: "m.custom".to_owned() });
            assert_eq!(encryption_info.sender_device_id.as_deref(), Some("BOBDEVICE"));
        }
        other => panic!("expected a decrypted event, got {other:?}"),
    }
    assert_eq!(
        out[1],
        ProcessedToDeviceEvent::PlainText { event_type: "m.dummy".to_owned(), sender: "@bob:localhost".to_owned() }
    );
    assert_eq!(out[2], ProcessedToDeviceEvent::Invalid(InvalidReason::MissingEventType));
    assert_eq!(out[3], ProcessedToDeviceEvent::UnableToDecrypt(UnableToDecryptReason::DecryptionFailure));
    assert!(keys.is_empty());
    assert_eq!(sessions.len(), 1);
}

#[test]
fn test_trust_gate_on_real_messages() {
    let mut receiver = Identity::new_dehydrated("@alice:localhost".to_owned());
    let sender = vodozemac::olm::Account::new();
    let custom_event = encrypt_for(&receiver, &sender, &payload_json("m.custom", "{}", &receiver, &sender));
    let room_key_content = "{\"algorithm\":\"m.megolm.v1.aes-sha2\",\"room_id\":\"!r:example.org\",\"session_id\":\"S\",\"session_key\":\"K\"}";
    let sender2 = vodozemac::olm::Account::new();
    let key_event = encrypt_for(&receiver, &sender2, &payload_json("m.room_key", room_key_content, &receiver, &sender2));
    let devices = vec![known_sender(&sender), known_sender(&sender2)];
    let mut sessions = Vec::new();
    let (out, keys) = process_to_device_events(&mut receiver, &mut sessions, &devices, vec![custom_event, key_event], &strict());
    assert_eq!(out[0], ProcessedToDeviceEvent::UnableToDecrypt(UnableToDecryptReason::UnverifiedSenderDevice));
    assert!(matches!(out[1], ProcessedToDeviceEvent::Decrypted { .. }));
    assert_eq!(keys.len(), 1);
    assert_eq!(keys[0].room_id, "!r:example.org");
    assert_eq!(keys[0].session_id, "S");
    assert_eq!(keys[0].session_key, "K");
    assert_eq!(keys[0].trust, SenderTrust::UnverifiedDevice);
}

#[test]
fn test_wrong_recipient_fails() {
    let mut receiver = Identity::new_dehydrated("@alice:localhost".to_owned());
    let sender = vodozemac::olm::Account::new();
    let payload = payload_json("m.custom", "{}", &receiver, &sender).replace("@alice:localhost", "@eve:localhost");
    let event = encrypt_for(&receiver, &sender, &payload);
    let mut sessions = Vec::new();
    let (out, _) = process_to_device_events(&mut receiver, &mut sessions, &vec![known_sender(&sender)], vec![event], &lax());
    assert_eq!(out[0], ProcessedToDeviceEvent::UnableToDecrypt(UnableToDecryptReason::DecryptionFailure));
}

#[test]
fn test_parse_and_check_plaintext() {
    let bytes = b"{\"type\":\"m.room_key\",\"content\":{\"room_id\":\"!r\",\"session_id\":\"S\",\"session_key\":\"K\"},\"sender\":\"@b:x\",\"recipient\":\"@a:x\",\"recipient_keys\":{\"ed25519\":\"AED\"},\"keys\":{\"ed25519\":\"BED\"}}";
    let parsed = parse_olm_plaintext(bytes).expect("the payload has every field");
    assert_eq!(
        parsed,
        OlmPlaintext {
            sender: "@b:x".to_owned(),
            recipient: "@a:x".to_owned(),
            recipient_ed25519: "AED".to_owned(),
            sender_ed25519: "BED".to_owned(),
            content: DecryptedContent::RoomKey(RoomKeyContent {
                room_id: "!r".to_owned(),
                session_id: "S".to_owned(),
                session_key: "K".to_owned(),
            }),
        }
    );
    assert!(parse_olm_plaintext(b"{\"type\":\"m.custom\"}").is_none());
    assert!(parse_olm_plaintext(b"not json").is_none());

    let device = SenderDevice {
        user_id: "@b:x".to_owned(),
        device_id: "B".to_owned(),
        ed25519_key: "BED".to_owned(),
        curve25519_key: "BCU".to_owned(),
        locally_trusted: false,
        cross_signed_by_owner: false,
        owner_identity: None,
    };
    let devices = vec![device.clone()];
    let s = |x: &str| x.to_owned();
    let ok = check_plaintext(parsed.clone(), &s("@b:x"), &s("BCU"), &s("@a:x"), &s("AED"), &devices).unwrap();
    assert_eq!(ok.sender_device, Some(device.clone()));
    let unknown = check_plaintext(parsed.clone(), &s("@b:x"), &s("OTHER"), &s("@a:x"), &s("AED"), &devices).unwrap();
    assert_eq!(unknown.sender_device, None);
    assert!(check_plaintext(parsed.clone(), &s("@c:x"), &s("BCU"), &s("@a:x"), &s("AED"), &devices).is_none());
    assert!(check_plaintext(parsed.clone(), &s("@b:x"), &s("BCU"), &s("@a:x"), &s("XED"), &devices).is_none());
    let forged = SenderDevice { ed25519_key: "FORGED".to_owned(), ..device };
    assert!(check_plaintext(parsed, &s("@b:x"), &s("BCU"), &s("@a:x"), &s("AED"), &vec![forged]).is_none());
}

#[test]
fn test_parse_to_device_event() {
    let own = "OWNKEY";
    assert_eq!(parse_to_device_event("not json".as_bytes(), own), RawToDeviceEvent::Malformed);
    assert_eq!(parse_to_device_event("{\"content\":{}}".as_bytes(), own), RawToDeviceEvent::Malformed);
    assert_eq!(
        parse_to_device_event("{\"type\":\"m.dummy\",\"sender\":\"@b:x\"}".as_bytes(), own),
        RawToDeviceEvent::PlainText { event_type: "m.dummy".to_owned(), sender: "@b:x".to_owned() }
    );
    let encrypted = "{\"type\":\"m.room.encrypted\",\"sender\":\"@b:x\",\"content\":{\"sender_key\":\"BK\",\"ciphertext\":{\"OWNKEY\":{\"type\":1,\"body\":\"CT\"}}}}";
    assert_eq!(
        parse_to_device_event(encrypted.as_bytes(), own),
        RawToDeviceEvent::Encrypted {
            sender: "@b:x".to_owned(),
            sender_key: "BK".to_owned(),
            message_type: 1,
            ciphertext: "CT".to_owned(),
        }
    );
    assert_eq!(parse_to_device_event(encrypted.as_bytes(), "OTHERKEY"), RawToDeviceEvent::MalformedEncrypted);
    assert_eq!(parse_to_device_event(b"{\"type\":\"m.dummy\"}", own), RawToDeviceEvent::MissingSender);
    let slashed = "{\"type\":\"m.room.encrypted\",\"sender\":\"@b:x\",\"content\":{\"sender_key\":\"BK\",\"ciphertext\":{\"a/b~c\":{\"type\":0,\"body\":\"CT\"}}}}";
    assert!(matches!(parse_to_device_event(slashed.as_bytes(), "a/b~c"), RawToDeviceEvent::Encrypted { message_type: 0, .. }));
    assert_eq!(
        classify_event(RawToDeviceEvent::MissingSender, None, &lax()),
        ProcessedToDeviceEvent::Invalid(InvalidReason::MissingSender)
    );
    let lax_settings = lax();
    assert_eq!(
        classify_event(RawToDeviceEvent::MalformedEncrypted, None, &lax_settings),
        ProcessedToDeviceEvent::Invalid(InvalidReason::MalformedEncryptedContent)
    );
}

#[test]
fn test_verification_state_precedence() {
    let violation = device(false, true, Some(OwnerIdentity { verified: false, previously_verified: true }));
    assert_eq!(
        verification_state(&Some(violation)),
        VerificationState::Unverified(UnverifiedReason::VerificationViolation)
    );
    let unverified_identity = device(false, true, Some(OwnerIdentity { verified: false, previously_verified: false }));
    assert_eq!(
        verification_state(&Some(unverified_identity)),
        VerificationState::Unverified(UnverifiedReason::UnverifiedIdentity)
    );
    let unsigned = device(false, false, Some(OwnerIdentity { verified: true, previously_verified: false }));
    assert_eq!(
        verification_state(&Some(unsigned)),
        VerificationState::Unverified(UnverifiedReason::UnverifiedDevice)
    );
    let cross_signed = device(false, true, Some(OwnerIdentity { verified: true, previously_verified: false }));
    assert_eq!(verification_state(&Some(cross_signed)), VerificationState::Verified);
    let local = device(true, false, Some(OwnerIdentity { verified: false, previously_verified: true }));
    assert_eq!(verification_state(&Some(local)), VerificationState::Verified);
    assert_eq!(
        verification_state(&None),
        VerificationState::Unverified(UnverifiedReason::UnverifiedDevice)
    );
}

#[test]
fn test_event_from_fields() {
    let s = |x: &str| Some(x.to_owned());
    assert_eq!(event_from_fields(None, s("@b:x"), None, None, None), RawToDeviceEvent::Malformed);
    assert_eq!(event_from_fields(s("m.dummy"), None, None, None, None), RawToDeviceEvent::MissingSender);
    assert_eq!(
        event_from_fields(s("m.dummy"), s("@b:x"), None, None, None),
        RawToDeviceEvent::PlainText { event_type: "m.dummy".to_owned(), sender: "@b:x".to_owned() }
    );
    assert_eq!(
        event_from_fields(s("m.room.encrypted"), s("@b:x"), s("BK"), Some(0), s("CT")),
        RawToDeviceEvent::Encrypted {
            sender: "@b:x".to_owned(),
            sender_key: "BK".to_owned(),
            message_type: 0,
            ciphertext: "CT".to_owned(),
        }
    );
    assert_eq!(
        event_from_fields(s("m.room.encrypted"), s("@b:x"), s("BK"), Some(2), s("CT")),
        RawToDeviceEvent::MalformedEncrypted
    );
    assert_eq!(
        event_from_fields(s("m.room.encrypted"), s("@b:x"), None, Some(1), s("CT")),
        RawToDeviceEvent::MalformedEncrypted
    );
}

#[test]
fn test_plaintext_from_fields() {
    let s = |x: &str| Some(x.to_owned());
    let key = RoomKeyContent { room_id: "!r".to_owned(), session_id: "S".to_owned(), session_key: "K".to_owned() };
    let custom = plaintext_from_fields(s("m.custom"), s("@b:x"), s("@a:x"), s("AED"), s("BED"), None, None, None).unwrap();
    assert_eq!(custom.content, DecryptedContent::Custom { event_type: "m.custom".to_owned() });
    assert_eq!(custom.recipient_ed25519, "AED");
    let room = plaintext_from_fields(s("m.room_key"), s("@b:x"), s("@a:x"), s("AED"), s("BED"), s("!r"), s("S"), s("K")).unwrap();
    assert_eq!(room.content, DecryptedContent::RoomKey(key.clone()));
    assert_eq!(plaintext_from_fields(s("m.room_key"), s("@b:x"), s("@a:x"), s("AED"), s("BED"), s("!r"), None, s("K")), None);
    assert_eq!(plaintext_from_fields(s("m.custom"), s("@b:x"), None, s("AED"), s("BED"), s("!r"), s("S"), s("K")), None);
}
