use vstd::prelude::*;

use crate::identity::Identity;
use crate::olm::{decrypt_olm, olm_decodable, OlmSessionEntry};
use crate::sessions::{InboundGroupSession, SenderTrust};
use crate::verification::{
    device_is_verified, verification_state, verification_state_of, SenderDevice,
    VerificationState,
};
use crate::wire::{check_plaintext, check_plaintext_spec, parse_olm_plaintext, plaintext_read, OlmPlaintext};

verus! {

/// The policy knob that decides whether unverified senders are accepted.
#[derive(Debug, Clone, Copy, PartialEq, Eq)]
pub enum TrustRequirement {
    /// Accept every event that decrypts.
    Untrusted,
    /// Accept an event only from a verified device; room keys always pass.
    CrossSignedOrLegacy,
}

/// Settings of to-device decryption.
#[derive(Debug, Clone, Copy, PartialEq, Eq)]
pub struct DecryptionSettings {
    pub sender_device_trust_requirement: TrustRequirement,
}

/// The content of a room key as it travels in an encrypted to-device event.
#[derive(Debug, Clone, PartialEq, Eq)]
pub struct RoomKeyContent {
    pub room_id: String,
    pub session_id: String,
    /// The Megolm session key, in base64.
    pub session_key: String,
}

/// What an encrypted to-device event holds once decrypted.
#[derive(Debug, Clone, PartialEq, Eq)]
pub enum DecryptedContent {
    /// An `m.room_key` event.
    RoomKey(RoomKeyContent),
    /// Any other event, by its type.
    Custom { event_type: String },
}

/// What an encrypted event holds once decrypted and checked, with what the
/// receiver knows of the device that sent it.
#[derive(Debug, Clone, PartialEq, Eq)]
pub struct DecryptedPayload {
    pub content: DecryptedContent,
    /// `None` where the sender's device is unknown to the receiver.
    pub sender_device: Option<SenderDevice>,
}

/// A to-device event as it arrives from the server.
#[derive(Debug, Clone, PartialEq, Eq)]
pub enum RawToDeviceEvent {
    /// The event is not JSON, or has no type.
    Malformed,
    /// An event in the clear without a sender.
    MissingSender,
    /// An `m.room.encrypted` event without the fields of an Olm message for
    /// the receiver.
    MalformedEncrypted,
    /// An event sent in the clear.
    PlainText { event_type: String, sender: String },
    /// An `m.room.encrypted` event: an Olm message from the device of
    /// `sender_key`, of type 0 (pre-key) or 1, its ciphertext in base64.
    Encrypted { sender: String, sender_key: String, message_type: usize, ciphertext: String },
}

/// Why an event is invalid.
#[derive(Debug, Clone, Copy, PartialEq, Eq)]
pub enum InvalidReason {
    MissingEventType,
    MissingSender,
    MalformedEncryptedContent,
}

/// Why an encrypted event could not be used.
#[derive(Debug, Clone, Copy, PartialEq, Eq)]
pub enum UnableToDecryptReason {
    /// No session, a failed cipher, or an unknown sender device.
    DecryptionFailure,
    /// The trust requirement refused an unverified sender device.
    UnverifiedSenderDevice,
}

/// What is known of how a decrypted event was sent.
#[derive(Debug, Clone, PartialEq, Eq)]
pub struct EncryptionInfo {
    pub sender: String,
    pub sender_device_id: Option<String>,
    pub sender_key: String,
    pub verification_state: VerificationState,
}

/// The outcome of classifying one to-device event.
#[derive(Debug, Clone, PartialEq, Eq)]
pub enum ProcessedToDeviceEvent {
    Decrypted { content: DecryptedContent, encryption_info: EncryptionInfo },
    PlainText { event_type: String, sender: String },
    Invalid(InvalidReason),
    UnableToDecrypt(UnableToDecryptReason),
}

/// Whether a decrypted content is a room key.
pub open spec fn is_room_key(c: DecryptedContent) -> bool {
    c matches DecryptedContent::RoomKey(_)
}

/// The device id of a sender device, if known.
pub open spec fn device_id_of(d: Option<SenderDevice>) -> Option<String> {
    match d {
        Some(d) => Some(d.device_id),
        None => None,
    }
}

/// The classification of one event under the given settings; `decrypted`
/// is what an encrypted event gave once decrypted and checked, `None` where
/// that failed.
pub open spec fn classify_spec(ev: RawToDeviceEvent, decrypted: Option<DecryptedPayload>, settings: DecryptionSettings) -> ProcessedToDeviceEvent {
    match ev {
        RawToDeviceEvent::Malformed => ProcessedToDeviceEvent::Invalid(InvalidReason::MissingEventType),
        RawToDeviceEvent::MissingSender => ProcessedToDeviceEvent::Invalid(InvalidReason::MissingSender),
        RawToDeviceEvent::MalformedEncrypted => ProcessedToDeviceEvent::Invalid(InvalidReason::MalformedEncryptedContent),
        RawToDeviceEvent::PlainText { event_type, sender } => ProcessedToDeviceEvent::PlainText { event_type, sender },
        RawToDeviceEvent::Encrypted { sender, sender_key, .. } => match decrypted {
            None => ProcessedToDeviceEvent::UnableToDecrypt(UnableToDecryptReason::DecryptionFailure),
            Some(p) => if p.sender_device is None && !is_room_key(p.content) {
                ProcessedToDeviceEvent::UnableToDecrypt(UnableToDecryptReason::DecryptionFailure)
            } else if settings.sender_device_trust_requirement == TrustRequirement::CrossSignedOrLegacy
                && !is_room_key(p.content)
                && !device_is_verified(p.sender_device.unwrap()) {
                ProcessedToDeviceEvent::UnableToDecrypt(UnableToDecryptReason::UnverifiedSenderDevice)
            } else {
                ProcessedToDeviceEvent::Decrypted {
                    content: p.content,
                    encryption_info: EncryptionInfo {
                        sender,
                        sender_device_id: device_id_of(p.sender_device),
                        sender_key,
                        verification_state: verification_state_of(p.sender_device),
                    },
                }
            },
        },
    }
}

/// How far the sender of a decrypted event was trusted.
pub open spec fn sender_trust_of(info: EncryptionInfo) -> SenderTrust {
    if info.verification_state == VerificationState::Verified {
        SenderTrust::VerifiedDevice
    } else if info.sender_device_id is Some {
        SenderTrust::UnverifiedDevice
    } else {
        SenderTrust::UnknownDevice
    }
}

/// The room key that a classified event carries, if any.
pub open spec fn room_key_of(p: ProcessedToDeviceEvent) -> Option<InboundGroupSession> {
    match p {
        ProcessedToDeviceEvent::Decrypted { content: DecryptedContent::RoomKey(k), encryption_info } => Some(InboundGroupSession {
            room_id: k.room_id,
            session_id: k.session_id,
            session_key: k.session_key,
            sender_key: encryption_info.sender_key,
            trust: sender_trust_of(encryption_info),
        }),
        _ => None,
    }
}

impl EncryptionInfo {
    /// How far the sender was trusted.
    pub fn sender_trust(&self) -> (r: SenderTrust)
        ensures
            r == sender_trust_of(*self),
    {
        match self.verification_state {
            VerificationState::Verified => SenderTrust::VerifiedDevice,
            VerificationState::Unverified(_) => match self.sender_device_id {
                Some(_) => SenderTrust::UnverifiedDevice,
                None => SenderTrust::UnknownDevice,
            },
        }
    }
}

impl DecryptedContent {
    /// Whether this is a room key.
    pub fn is_room_key(&self) -> (r: bool)
        ensures
            r == is_room_key(*self),
    {
        match self {
            DecryptedContent::RoomKey(_) => true,
            DecryptedContent::Custom { .. } => false,
        }
    }
}

/// Classifies one to-device event: invalid, plain text, undecryptable, or
/// decrypted with its trust. `decrypted` is what an encrypted event gave
/// once decrypted and checked.
pub fn classify_event(event: RawToDeviceEvent, decrypted: Option<DecryptedPayload>, settings: &DecryptionSettings) -> (r: ProcessedToDeviceEvent)
    ensures
        r == classify_spec(event, decrypted, *settings),
{
    match event {
        RawToDeviceEvent::Malformed => ProcessedToDeviceEvent::Invalid(InvalidReason::MissingEventType),
        RawToDeviceEvent::MissingSender => ProcessedToDeviceEvent::Invalid(InvalidReason::MissingSender),
        RawToDeviceEvent::MalformedEncrypted => ProcessedToDeviceEvent::Invalid(InvalidReason::MalformedEncryptedContent),
        RawToDeviceEvent::PlainText { event_type, sender } => ProcessedToDeviceEvent::PlainText { event_type, sender },
        RawToDeviceEvent::Encrypted { sender, sender_key, .. } => match decrypted {
            None => ProcessedToDeviceEvent::UnableToDecrypt(UnableToDecryptReason::DecryptionFailure),
            Some(p) => {
                let room_key = p.content.is_room_key();
                let state = verification_state(&p.sender_device);
                match p.sender_device {
                    None => {
                        if !room_key {
                            return ProcessedToDeviceEvent::UnableToDecrypt(UnableToDecryptReason::DecryptionFailure);
                        }
                        ProcessedToDeviceEvent::Decrypted {
                            content: p.content,
                            encryption_info: EncryptionInfo {
                                sender,
                                sender_device_id: None,
                                sender_key,
                                verification_state: state,
                            },
                        }
                    },
                    Some(d) => {
                        let strict = match settings.sender_device_trust_requirement {
                            TrustRequirement::CrossSignedOrLegacy => true,
                            TrustRequirement::Untrusted => false,
                        };
                        if strict && !room_key && !d.is_verified() {
                            return ProcessedToDeviceEvent::UnableToDecrypt(UnableToDecryptReason::UnverifiedSenderDevice);
                        }
                        ProcessedToDeviceEvent::Decrypted {
                            content: p.content,
                            encryption_info: EncryptionInfo {
                                sender,
                                sender_device_id: Some(d.device_id),
                                sender_key,
                                verification_state: state,
                            },
                        }
                    },
                }
            },
        },
    }
}

/// The trust gate: under `CrossSignedOrLegacy`, an event from a known but
/// unverified device that decrypts is refused unless it is a room key, and
/// the same device's room key is accepted.
pub proof fn lemma_trust_gate(event: RawToDeviceEvent, device: SenderDevice, event_type: String, room_key: RoomKeyContent)
    requires
        event is Encrypted,
        !device_is_verified(device),
    ensures
        ({
            let settings = DecryptionSettings { sender_device_trust_requirement: TrustRequirement::CrossSignedOrLegacy };
            let custom = DecryptedPayload { content: DecryptedContent::Custom { event_type }, sender_device: Some(device) };
            let key = DecryptedPayload { content: DecryptedContent::RoomKey(room_key), sender_device: Some(device) };
            &&& classify_spec(event, Some(custom), settings) == ProcessedToDeviceEvent::UnableToDecrypt(UnableToDecryptReason::UnverifiedSenderDevice)
            &&& classify_spec(event, Some(key), settings) matches ProcessedToDeviceEvent::Decrypted { content: DecryptedContent::RoomKey(k), .. } && k == room_key
        }),
{
}

/// A room key that decrypts and passes its checks is accepted under every
/// trust requirement, whether its sender device is known, verified or not.
pub proof fn lemma_room_keys_always_pass(event: RawToDeviceEvent, room_key: RoomKeyContent, sender_device: Option<SenderDevice>, settings: DecryptionSettings)
    requires
        event is Encrypted,
    ensures
        room_key_of(classify_spec(event, Some(DecryptedPayload { content: DecryptedContent::RoomKey(room_key), sender_device }), settings))
            matches Some(k) && k.room_id == room_key.room_id && k.session_id == room_key.session_id && k.session_key == room_key.session_key,
{
}

/// Without a trust requirement every event that decrypts from a known device
/// is accepted.
pub proof fn lemma_untrusted_accepts(event: RawToDeviceEvent, payload: DecryptedPayload)
    requires
        event is Encrypted,
        payload.sender_device is Some,
    ensures
        classify_spec(
            event,
            Some(payload),
            DecryptionSettings { sender_device_trust_requirement: TrustRequirement::Untrusted },
        ) matches ProcessedToDeviceEvent::Decrypted { content, .. } && content == payload.content,
{
}

/// The room keys that a sequence of classified events carries, in order.
pub open spec fn room_keys_in(s: Seq<ProcessedToDeviceEvent>) -> Seq<InboundGroupSession>
    decreases s.len(),
{
    if s.len() == 0 {
        seq![]
    } else {
        let rest = room_keys_in(s.drop_last());
        match room_key_of(s.last()) {
            Some(k) => rest.push(k),
            None => rest,
        }
    }
}

/// The classification of each event of a batch, in the batch's order, with
/// what each encrypted event gave once decrypted and checked.
pub open spec fn classify_all(events: Seq<RawToDeviceEvent>, decrypted: Seq<Option<DecryptedPayload>>, settings: DecryptionSettings) -> Seq<ProcessedToDeviceEvent> {
    Seq::new(events.len(), |i: int| classify_spec(events[i], decrypted[i], settings))
}

/// What an event gives once decrypted and checked, given what its Olm
/// message decrypted to (`None` where nothing did, or it did not parse).
pub open spec fn checked_payload(
    ev: RawToDeviceEvent,
    plaintext: Option<OlmPlaintext>,
    own_user_id: Seq<char>,
    own_ed25519: Seq<char>,
    devices: Seq<SenderDevice>,
) -> Option<DecryptedPayload> {
    match (ev, plaintext) {
        (RawToDeviceEvent::Encrypted { sender, sender_key, .. }, Some(p)) => check_plaintext_spec(p, sender@, sender_key@, own_user_id, own_ed25519, devices),
        _ => None,
    }
}

/// `checked_payload` of each event of a batch.
pub open spec fn checked_payloads(
    events: Seq<RawToDeviceEvent>,
    plaintexts: Seq<Option<OlmPlaintext>>,
    own_user_id: Seq<char>,
    own_ed25519: Seq<char>,
    devices: Seq<SenderDevice>,
) -> Seq<Option<DecryptedPayload>> {
    Seq::new(events.len(), |i: int| checked_payload(events[i], plaintexts[i], own_user_id, own_ed25519, devices))
}

/// The classification of a batch whose Olm messages decrypted to `plaintexts`.
pub open spec fn outcomes(
    events: Seq<RawToDeviceEvent>,
    plaintexts: Seq<Option<OlmPlaintext>>,
    own_user_id: Seq<char>,
    own_ed25519: Seq<char>,
    devices: Seq<SenderDevice>,
    settings: DecryptionSettings,
) -> Seq<ProcessedToDeviceEvent> {
    classify_all(events, checked_payloads(events, plaintexts, own_user_id, own_ed25519, devices), settings)
}

/// What an event's Olm message decrypted to fits the event: nothing, or the
/// bytes of a message that could be decrypted, with the payload those bytes
/// read as. Events that are not encrypted decrypt to nothing.
pub open spec fn decryption_fits(ev: RawToDeviceEvent, decrypted: Option<Seq<u8>>, plaintext: Option<OlmPlaintext>) -> bool {
    match ev {
        RawToDeviceEvent::Encrypted { sender_key, message_type, ciphertext, .. } => match decrypted {
            None => plaintext is None,
            Some(b) => olm_decodable(message_type, ciphertext@, sender_key@) && plaintext_read(b, plaintext),
        },
        _ => decrypted is None && plaintext is None,
    }
}

/// A batch was processed into these outcomes, its Olm messages having
/// decrypted to `decrypted` and read as `plaintexts`.
pub open spec fn processed_as(
    events: Seq<RawToDeviceEvent>,
    decrypted: Seq<Option<Seq<u8>>>,
    plaintexts: Seq<Option<OlmPlaintext>>,
    own_user_id: Seq<char>,
    own_ed25519: Seq<char>,
    devices: Seq<SenderDevice>,
    settings: DecryptionSettings,
    processed: Seq<ProcessedToDeviceEvent>,
) -> bool {
    &&& decrypted.len() == events.len()
    &&& plaintexts.len() == events.len()
    &&& forall|i: int| 0 <= i < events.len() ==> decryption_fits(#[trigger] events[i], decrypted[i], plaintexts[i])
    &&& processed == outcomes(events, plaintexts, own_user_id, own_ed25519, devices, settings)
}

/// A processed batch has one outcome per event, in the batch's order. An
/// event in the clear stays plain text, one without a type is invalid, and
/// an encrypted event whose message decrypts to nothing is undecryptable,
/// whatever the other events of the batch are.
pub proof fn lemma_outcomes_in_order(
    events: Seq<RawToDeviceEvent>,
    decrypted: Seq<Option<Seq<u8>>>,
    plaintexts: Seq<Option<OlmPlaintext>>,
    own_user_id: Seq<char>,
    own_ed25519: Seq<char>,
    devices: Seq<SenderDevice>,
    settings: DecryptionSettings,
    processed: Seq<ProcessedToDeviceEvent>,
    i: int,
)
    requires
        processed_as(events, decrypted, plaintexts, own_user_id, own_ed25519, devices, settings, processed),
        0 <= i < events.len(),
    ensures
        processed.len() == events.len(),
        events[i] matches RawToDeviceEvent::PlainText { event_type, sender } ==> processed[i] == (ProcessedToDeviceEvent::PlainText { event_type, sender }),
        events[i] == RawToDeviceEvent::Malformed ==> processed[i] == ProcessedToDeviceEvent::Invalid(InvalidReason::MissingEventType),
        (events[i] is Encrypted && decrypted[i] is None) ==> processed[i] == ProcessedToDeviceEvent::UnableToDecrypt(UnableToDecryptReason::DecryptionFailure),
{
    assert(decryption_fits(events[i], decrypted[i], plaintexts[i]));
}

/// Decrypts, checks and classifies a batch of to-device events with the
/// receiver's identity and Olm sessions, one outcome per event in the
/// batch's order, and collects the room keys that arrived, in order too.
/// What each Olm message decrypts to is the ratchet's to say; whatever it
/// is, each outcome is the classification of its event, and an event that
/// fails never stops the others.
pub fn process_to_device_events(
    receiver: &mut Identity,
    olm_sessions: &mut Vec<OlmSessionEntry>,
    devices: &Vec<SenderDevice>,
    batch: Vec<RawToDeviceEvent>,
    settings: &DecryptionSettings,
) -> (r: (Vec<ProcessedToDeviceEvent>, Vec<InboundGroupSession>))
    ensures
        exists|decrypted: Seq<Option<Seq<u8>>>, plaintexts: Seq<Option<OlmPlaintext>>|
            #[trigger] processed_as(batch@, decrypted, plaintexts, old(receiver).user_id@, old(receiver).ed25519_key@, devices@, *settings, r.0@),
        r.1@ == room_keys_in(r.0@),
        final(receiver).user_id == old(receiver).user_id,
        final(receiver).device_id == old(receiver).device_id,
        final(receiver).ed25519_key == old(receiver).ed25519_key,
        final(receiver).curve25519_key == old(receiver).curve25519_key,
        final(receiver).dehydrated == old(receiver).dehydrated,
        final(receiver).has_fallback_key == old(receiver).has_fallback_key,
{
    let ghost input = batch@;
    let ghost own_user = receiver.user_id@;
    let ghost own_ed = receiver.ed25519_key@;
    let ghost mut plaintexts: Seq<Option<OlmPlaintext>> = seq![];
    let ghost mut decrypted_all: Seq<Option<Seq<u8>>> = seq![];
    let mut events = batch;
    let mut processed: Vec<ProcessedToDeviceEvent> = Vec::new();
    let mut room_keys: Vec<InboundGroupSession> = Vec::new();
    let n = events.len();
    let mut i: usize = 0;
    assert(processed@ =~= outcomes(input.subrange(0, 0), plaintexts, own_user, own_ed, devices@, *settings));
    while i < n
        invariant
            n == input.len(),
            i <= n,
            events@ == input.subrange(i as int, n as int),
            plaintexts.len() == i,
            processed_as(input.subrange(0, i as int), decrypted_all, plaintexts, own_user, own_ed, devices@, *settings, processed@),
            room_keys@ == room_keys_in(processed@),
            receiver.user_id@ == own_user,
            receiver.ed25519_key@ == own_ed,
            receiver.user_id == old(receiver).user_id,
            receiver.device_id == old(receiver).device_id,
            receiver.ed25519_key == old(receiver).ed25519_key,
            receiver.curve25519_key == old(receiver).curve25519_key,
            receiver.dehydrated == old(receiver).dehydrated,
            receiver.has_fallback_key == old(receiver).has_fallback_key,
        decreases n - i,
    {
        let ev = events.remove(0);
        let ghost mut plaintext: Option<OlmPlaintext> = None;
        let ghost mut bytes_seen: Option<Seq<u8>> = None;
        let decrypted = match &ev {
            RawToDeviceEvent::Encrypted { sender, sender_key, message_type, ciphertext } => {
                match decrypt_olm(receiver, olm_sessions, sender_key, *message_type, ciphertext) {
                    Some(bytes) => {
                        proof { bytes_seen = Some(bytes@); }
                        let parsed = parse_olm_plaintext(bytes.as_slice());
                        proof { plaintext = parsed; }
                        match parsed {
                            Some(p) => check_plaintext(p, sender, sender_key, &receiver.user_id, &receiver.ed25519_key, devices),
                            None => None,
                        }
                    },
                    None => None,
                }
            },
            _ => None,
        };
        assert(decryption_fits(ev, bytes_seen, plaintext));
        assert(decrypted == checked_payload(ev, plaintext, own_user, own_ed, devices@));
        let out = classify_event(ev, decrypted, settings);
        let ghost before = processed@;
        match &out {
            ProcessedToDeviceEvent::Decrypted { content: DecryptedContent::RoomKey(k), encryption_info } => {
                room_keys.push(InboundGroupSession {
                    room_id: k.room_id.clone(),
                    session_id: k.session_id.clone(),
                    session_key: k.session_key.clone(),
                    sender_key: encryption_info.sender_key.clone(),
                    trust: encryption_info.sender_trust(),
                });
            },
            _ => {},
        }
        processed.push(out);
        proof {
            let ghost old_pt = plaintexts;
            let ghost old_d = decrypted_all;
            plaintexts = plaintexts.push(plaintext);
            decrypted_all = decrypted_all.push(bytes_seen);
            assert(processed@.drop_last() =~= before);
            assert(input.subrange(0, i as int).push(input[i as int]) =~= input.subrange(0, i + 1));
            assert(processed@ =~= outcomes(input.subrange(0, i + 1), plaintexts, own_user, own_ed, devices@, *settings));
            assert forall|k: int| 0 <= k < i + 1 implies decryption_fits(#[trigger] input.subrange(0, i + 1)[k], decrypted_all[k], plaintexts[k]) by {
                if k < i {
                    assert(input.subrange(0, i + 1)[k] == input.subrange(0, i as int)[k]);
                }
            }
        }
        i = i + 1;
    }
    assert(input.subrange(0, n as int) =~= input);
    assert(own_user == old(receiver).user_id@ && own_ed == old(receiver).ed25519_key@);
    assert(processed_as(input, decrypted_all, plaintexts, old(receiver).user_id@, old(receiver).ed25519_key@, devices@, *settings, processed@));
    assert(input == batch@);
    assert(processed_as(batch@, decrypted_all, plaintexts, old(receiver).user_id@, old(receiver).ed25519_key@, devices@, *settings, processed@));
    let r = (processed, room_keys);
    assert(processed_as(batch@, decrypted_all, plaintexts, old(receiver).user_id@, old(receiver).ed25519_key@, devices@, *settings, r.0@));

    r
}

} // verus!
