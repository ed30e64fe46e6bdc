use vstd::prelude::*;

use crate::device_keys::{chars_of, push_text, string_of};
use crate::error::DehydrationError;
use crate::events::{DecryptedContent, DecryptedPayload, RawToDeviceEvent, RoomKeyContent};
use crate::identity::DehydratedDeviceData;
use crate::verification::SenderDevice;

verus! {

/// The string that a JSON pointer reaches in a JSON document, if the bytes
/// are JSON and the pointer reaches a string.
pub uninterp spec fn json_str_at(json: Seq<u8>, pointer: Seq<char>) -> Option<Seq<char>>;

/// The unsigned integer that a JSON pointer reaches in a JSON document, if
/// the bytes are JSON and the pointer reaches one.
pub uninterp spec fn json_u64_at(json: Seq<u8>, pointer: Seq<char>) -> Option<u64>;

/// The view of an optional string.
pub open spec fn opt_view(o: Option<String>) -> Option<Seq<char>> {
    match o {
        Some(s) => Some(s@),
        None => None,
    }
}

/// Relies on serde_json's `from_slice`, `Value::pointer` and `Value::as_str`:
/// a function of the bytes and the pointer.
#[verifier::external_body]
fn read_str_at(json: &[u8], pointer: &str) -> (r: Option<String>)
    ensures
        opt_view(r) == json_str_at(json@, pointer@),
{
    serde_json::from_slice::<serde_json::Value>(json).ok()?.pointer(pointer)?.as_str().map(|s| s.to_owned())
}

/// Relies on serde_json's `from_slice`, `Value::pointer` and `Value::as_u64`:
/// a function of the bytes and the pointer.
#[verifier::external_body]
fn read_u64_at(json: &[u8], pointer: &str) -> (r: Option<u64>)
    ensures
        r == json_u64_at(json@, pointer@),
{
    serde_json::from_slice::<serde_json::Value>(json).ok()?.pointer(pointer)?.as_u64()
}

/// A key as one token of a JSON pointer: `~` becomes `~0`, `/` becomes `~1`.
pub open spec fn pointer_token(s: Seq<char>) -> Seq<char>
    decreases s.len(),
{
    if s.len() == 0 {
        seq![]
    } else {
        pointer_token(s.drop_last()) + (if s.last() == '~' {
            seq!['~', '0']
        } else if s.last() == '/' {
            seq!['~', '1']
        } else {
            seq![s.last()]
        })
    }
}

/// Appends a key as one token of a JSON pointer.
fn push_pointer_token(out: &mut Vec<char>, s: &str)
    ensures
        final(out)@ == old(out)@ + pointer_token(s@),
{
    let chars = chars_of(s);
    let ghost start = out@;
    let mut i: usize = 0;
    while i < chars.len()
        invariant
            i <= chars@.len(),
            chars@ == s@,
            out@ == start + pointer_token(chars@.subrange(0, i as int)),
        decreases chars@.len() - i,
    {
        let c = chars[i];
        if c == '~' {
            out.push('~');
            out.push('0');
        } else if c == '/' {
            out.push('~');
            out.push('1');
        } else {
            out.push(c);
        }
        assert(chars@.subrange(0, i + 1).drop_last() =~= chars@.subrange(0, i as int));
        assert(out@ =~= start + pointer_token(chars@.subrange(0, i + 1)));
        i = i + 1;
    }
    assert(chars@.subrange(0, chars@.len() as int) =~= chars@);
}

/// The pointer to a field of the Olm message for a Curve25519 key.
pub open spec fn ciphertext_pointer(own_curve25519_key: Seq<char>, field: Seq<char>) -> Seq<char> {
    "/content/ciphertext/"@ + pointer_token(own_curve25519_key) + "/"@ + field
}

fn ciphertext_pointer_exec(own_curve25519_key: &str, field: &str) -> (r: String)
    ensures
        r@ == ciphertext_pointer(own_curve25519_key@, field@),
{
    let mut out: Vec<char> = Vec::new();
    push_text(&mut out, "/content/ciphertext/");
    push_pointer_token(&mut out, own_curve25519_key);
    push_text(&mut out, "/");
    push_text(&mut out, field);
    assert(out@ =~= ciphertext_pointer(own_curve25519_key@, field@));
    string_of(&out)
}

/// Whether a string holds exactly this text.
fn text_is(s: &String, text: &str) -> (r: bool)
    ensures
        r == (s@ == text@),
{
    *s == text.to_owned()
}

/// The fields of a decrypted Olm payload that the receiver checks and uses.
#[derive(Debug, Clone, PartialEq, Eq)]
pub struct OlmPlaintext {
    pub sender: String,
    pub recipient: String,
    /// The receiver's Ed25519 key, as the sender meant it.
    pub recipient_ed25519: String,
    /// The sender device's Ed25519 key, as it claims it.
    pub sender_ed25519: String,
    pub content: DecryptedContent,
}

/// The decrypted payload that these fields make: its sender, recipient and
/// keys must all be there, and an `m.room_key` needs its room id, session id
/// and session key; any other type is a custom event.
pub open spec fn plaintext_fields_match(
    r: Option<OlmPlaintext>,
    event_type: Option<Seq<char>>,
    sender: Option<Seq<char>>,
    recipient: Option<Seq<char>>,
    recipient_ed25519: Option<Seq<char>>,
    sender_ed25519: Option<Seq<char>>,
    room_id: Option<Seq<char>>,
    session_id: Option<Seq<char>>,
    session_key: Option<Seq<char>>,
) -> bool {
    if event_type is None || sender is None || recipient is None || recipient_ed25519 is None || sender_ed25519 is None
        || (event_type.unwrap() == "m.room_key"@ && (room_id is None || session_id is None || session_key is None)) {
        r is None
    } else {
        &&& r is Some
        &&& r.unwrap().sender@ == sender.unwrap()
        &&& r.unwrap().recipient@ == recipient.unwrap()
        &&& r.unwrap().recipient_ed25519@ == recipient_ed25519.unwrap()
        &&& r.unwrap().sender_ed25519@ == sender_ed25519.unwrap()
        &&& if event_type.unwrap() == "m.room_key"@ {
            r.unwrap().content matches DecryptedContent::RoomKey(k) && k.room_id@ == room_id.unwrap()
                && k.session_id@ == session_id.unwrap() && k.session_key@ == session_key.unwrap()
        } else {
            r.unwrap().content matches DecryptedContent::Custom { event_type: t } && t@ == event_type.unwrap()
        }
    }
}

/// Builds a decrypted payload from its fields, as `plaintext_fields_match` says.
pub fn plaintext_from_fields(
    event_type: Option<String>,
    sender: Option<String>,
    recipient: Option<String>,
    recipient_ed25519: Option<String>,
    sender_ed25519: Option<String>,
    room_id: Option<String>,
    session_id: Option<String>,
    session_key: Option<String>,
) -> (r: Option<OlmPlaintext>)
    ensures
        plaintext_fields_match(r, opt_view(event_type), opt_view(sender), opt_view(recipient), opt_view(recipient_ed25519),
            opt_view(sender_ed25519), opt_view(room_id), opt_view(session_id), opt_view(session_key)),
{
    match (event_type, sender, recipient, recipient_ed25519, sender_ed25519) {
        (Some(event_type), Some(sender), Some(recipient), Some(recipient_ed25519), Some(sender_ed25519)) => {
            if text_is(&event_type, "m.room_key") {
                match (room_id, session_id, session_key) {
                    (Some(room_id), Some(session_id), Some(session_key)) => Some(OlmPlaintext {
                        sender,
                        recipient,
                        recipient_ed25519,
                        sender_ed25519,
                        content: DecryptedContent::RoomKey(RoomKeyContent { room_id, session_id, session_key }),
                    }),
                    _ => None,
                }
            } else {
                Some(OlmPlaintext { sender, recipient, recipient_ed25519, sender_ed25519, content: DecryptedContent::Custom { event_type } })
            }
        },
        _ => None,
    }
}

/// What a decrypted Olm payload reads as: its `type`, `sender`,
/// `recipient`, `recipient_keys.ed25519`, `keys.ed25519`, and the room id,
/// session id and session key of its content.
pub open spec fn plaintext_read(json: Seq<u8>, r: Option<OlmPlaintext>) -> bool {
    plaintext_fields_match(
        r,
        json_str_at(json, "/type"@),
        json_str_at(json, "/sender"@),
        json_str_at(json, "/recipient"@),
        json_str_at(json, "/recipient_keys/ed25519"@),
        json_str_at(json, "/keys/ed25519"@),
        json_str_at(json, "/content/room_id"@),
        json_str_at(json, "/content/session_id"@),
        json_str_at(json, "/content/session_key"@),
    )
}

/// Reads a decrypted Olm payload, as `plaintext_read` says.
pub fn parse_olm_plaintext(bytes: &[u8]) -> (r: Option<OlmPlaintext>)
    ensures
        plaintext_read(bytes@, r),
{
    plaintext_from_fields(
        read_str_at(bytes, "/type"),
        read_str_at(bytes, "/sender"),
        read_str_at(bytes, "/recipient"),
        read_str_at(bytes, "/recipient_keys/ed25519"),
        read_str_at(bytes, "/keys/ed25519"),
        read_str_at(bytes, "/content/room_id"),
        read_str_at(bytes, "/content/session_id"),
        read_str_at(bytes, "/content/session_key"),
    )
}

/// The to-device event that these fields make. Without a type it is
/// malformed. An `m.room.encrypted` event needs its sender, the sender's
/// Curve25519 key, and the type (0 or 1) and body of the Olm message for
/// the receiver, else it is a malformed encrypted event. Any other event
/// needs its sender, and is plain text.
pub open spec fn event_fields_match(
    r: RawToDeviceEvent,
    event_type: Option<Seq<char>>,
    sender: Option<Seq<char>>,
    sender_key: Option<Seq<char>>,
    message_type: Option<u64>,
    ciphertext: Option<Seq<char>>,
) -> bool {
    match event_type {
        None => r == RawToDeviceEvent::Malformed,
        Some(t) => if t == "m.room.encrypted"@ {
            if sender is Some && sender_key is Some && ciphertext is Some && (message_type matches Some(m) && m <= 1) {
                r matches RawToDeviceEvent::Encrypted { sender: s, sender_key: k, message_type: m, ciphertext: c }
                    && s@ == sender.unwrap() && k@ == sender_key.unwrap() && m as u64 == message_type.unwrap() && c@ == ciphertext.unwrap()
            } else {
                r == RawToDeviceEvent::MalformedEncrypted
            }
        } else {
            match sender {
                Some(s) => r matches RawToDeviceEvent::PlainText { event_type: et, sender: es } && et@ == t && es@ == s,
                None => r == RawToDeviceEvent::MissingSender,
            }
        },
    }
}

/// Builds a to-device event from its fields, as `event_fields_match` says.
pub fn event_from_fields(
    event_type: Option<String>,
    sender: Option<String>,
    sender_key: Option<String>,
    message_type: Option<u64>,
    ciphertext: Option<String>,
) -> (r: RawToDeviceEvent)
    ensures
        event_fields_match(r, opt_view(event_type), opt_view(sender), opt_view(sender_key), message_type, opt_view(ciphertext)),
{
    match event_type {
        None => RawToDeviceEvent::Malformed,
        Some(t) => {
            if text_is(&t, "m.room.encrypted") {
                match (sender, sender_key, message_type, ciphertext) {
                    (Some(sender), Some(sender_key), Some(m), Some(ciphertext)) => {
                        if m <= 1 {
                            RawToDeviceEvent::Encrypted { sender, sender_key, message_type: m as usize, ciphertext }
                        } else {
                            RawToDeviceEvent::MalformedEncrypted
                        }
                    },
                    _ => RawToDeviceEvent::MalformedEncrypted,
                }
            } else {
                match sender {
                    Some(s) => RawToDeviceEvent::PlainText { event_type: t, sender: s },
                    None => RawToDeviceEvent::MissingSender,
                }
            }
        },
    }
}

/// What a to-device event reads as: its `type` and `sender`, and the
/// `sender_key` and the Olm message for the receiver's Curve25519 key of its
/// content. Text that is not JSON has no type.
pub open spec fn event_read(json: Seq<u8>, own_curve25519_key: Seq<char>, r: RawToDeviceEvent) -> bool {
    event_fields_match(
        r,
        json_str_at(json, "/type"@),
        json_str_at(json, "/sender"@),
        json_str_at(json, "/content/sender_key"@),
        json_u64_at(json, ciphertext_pointer(own_curve25519_key, "type"@)),
        json_str_at(json, ciphertext_pointer(own_curve25519_key, "body"@)),
    )
}

/// Reads a to-device event from its JSON, as `event_read` says.
pub fn parse_to_device_event(json: &[u8], own_curve25519_key: &str) -> (r: RawToDeviceEvent)
    ensures
        event_read(json@, own_curve25519_key@, r),
{
    let type_pointer = ciphertext_pointer_exec(own_curve25519_key, "type");
    let body_pointer = ciphertext_pointer_exec(own_curve25519_key, "body");
    event_from_fields(
        read_str_at(json, "/type"),
        read_str_at(json, "/sender"),
        read_str_at(json, "/content/sender_key"),
        read_u64_at(json, type_pointer.as_str()),
        read_str_at(json, body_pointer.as_str()),
    )
}

/// The device data that these fields make: the `algorithm` names the
/// encoding, legacy (`org.matrix.msc3814.v1.olm`, a `device_pickle`) or
/// current (`org.matrix.msc3814.v2`, a `device_pickle` and a `nonce`).
/// Another algorithm or a missing field is a JSON error.
pub open spec fn device_data_fields_match(
    r: Result<DehydratedDeviceData, DehydrationError>,
    algorithm: Option<Seq<char>>,
    device_pickle: Option<Seq<char>>,
    nonce: Option<Seq<char>>,
) -> bool {
    if algorithm == Some("org.matrix.msc3814.v1.olm"@) && device_pickle is Some {
        r matches Ok(DehydratedDeviceData::V1 { device_pickle: p }) && p@ == device_pickle.unwrap()
    } else if algorithm == Some("org.matrix.msc3814.v2"@) && device_pickle is Some && nonce is Some {
        r matches Ok(DehydratedDeviceData::V2 { device_pickle: p, nonce: n }) && p@ == device_pickle.unwrap() && n@ == nonce.unwrap()
    } else {
        r matches Err(DehydrationError::Json)
    }
}

/// Builds device data from its fields, as `device_data_fields_match` says.
pub fn device_data_from_fields(algorithm: Option<String>, device_pickle: Option<String>, nonce: Option<String>) -> (r: Result<DehydratedDeviceData, DehydrationError>)
    ensures
        device_data_fields_match(r, opt_view(algorithm), opt_view(device_pickle), opt_view(nonce)),
{
    match (algorithm, device_pickle) {
        (Some(a), Some(p)) => {
            if text_is(&a, "org.matrix.msc3814.v1.olm") {
                Ok(DehydratedDeviceData::V1 { device_pickle: p })
            } else if text_is(&a, "org.matrix.msc3814.v2") {
                match nonce {
                    Some(n) => Ok(DehydratedDeviceData::V2 { device_pickle: p, nonce: n }),
                    None => Err(DehydrationError::Json),
                }
            } else {
                Err(DehydrationError::Json)
            }
        },
        _ => Err(DehydrationError::Json),
    }
}

/// Reads uploaded device data from its JSON: its `algorithm`,
/// `device_pickle` and `nonce`, as `device_data_fields_match` says.
pub fn parse_device_data(json: &[u8]) -> (r: Result<DehydratedDeviceData, DehydrationError>)
    ensures
        device_data_fields_match(r, json_str_at(json@, "/algorithm"@), json_str_at(json@, "/device_pickle"@), json_str_at(json@, "/nonce"@)),
{
    device_data_from_fields(read_str_at(json, "/algorithm"), read_str_at(json, "/device_pickle"), read_str_at(json, "/nonce"))
}

/// The first known device of this user with this Curve25519 key.
pub open spec fn find_device(devices: Seq<SenderDevice>, user_id: Seq<char>, curve25519_key: Seq<char>) -> Option<SenderDevice>
    decreases devices.len(),
{
    if devices.len() == 0 {
        None
    } else if devices[0].user_id@ == user_id && devices[0].curve25519_key@ == curve25519_key {
        Some(devices[0])
    } else {
        find_device(devices.drop_first(), user_id, curve25519_key)
    }
}

/// Checks a decrypted payload against the event and the receiver: the
/// sender must be the event's, the recipient the receiver with its Ed25519
/// key, and a known sender device must hold the Ed25519 key the payload
/// claims. The payload then comes with that device, or none if unknown.
pub open spec fn check_plaintext_spec(
    p: OlmPlaintext,
    event_sender: Seq<char>,
    sender_key: Seq<char>,
    own_user_id: Seq<char>,
    own_ed25519: Seq<char>,
    devices: Seq<SenderDevice>,
) -> Option<DecryptedPayload> {
    let device = find_device(devices, event_sender, sender_key);
    if p.sender@ != event_sender || p.recipient@ != own_user_id || p.recipient_ed25519@ != own_ed25519 {
        None
    } else if device matches Some(d) && d.ed25519_key@ != p.sender_ed25519@ {
        None
    } else {
        Some(DecryptedPayload { content: p.content, sender_device: device })
    }
}

/// Finds a known device by user and Curve25519 key.
pub fn lookup_device(devices: &Vec<SenderDevice>, user_id: &String, curve25519_key: &String) -> (r: Option<SenderDevice>)
    ensures
        r == find_device(devices@, user_id@, curve25519_key@),
{
    let mut i: usize = 0;
    assert(devices@.subrange(0, devices@.len() as int) =~= devices@);
    while i < devices.len()
        invariant
            i <= devices@.len(),
            find_device(devices@, user_id@, curve25519_key@) == find_device(devices@.subrange(i as int, devices@.len() as int), user_id@, curve25519_key@),
        decreases devices@.len() - i,
    {
        let d = &devices[i];
        assert(devices@.subrange(i as int, devices@.len() as int).drop_first() =~= devices@.subrange(i + 1, devices@.len() as int));
        if d.user_id == *user_id && d.curve25519_key == *curve25519_key {
            return Some(d.copy());
        }
        i = i + 1;
    }
    None
}

/// Checks a decrypted payload, as `check_plaintext_spec` says.
pub fn check_plaintext(
    p: OlmPlaintext,
    event_sender: &String,
    sender_key: &String,
    own_user_id: &String,
    own_ed25519: &String,
    devices: &Vec<SenderDevice>,
) -> (r: Option<DecryptedPayload>)
    ensures
        r == check_plaintext_spec(p, event_sender@, sender_key@, own_user_id@, own_ed25519@, devices@),
{
    let device = lookup_device(devices, event_sender, sender_key);
    if p.sender != *event_sender || p.recipient != *own_user_id || p.recipient_ed25519 != *own_ed25519 {
        return None;
    }
    match &device {
        Some(d) => {
            if d.ed25519_key != p.sender_ed25519 {
                return None;
            }
        },
        None => {},
    }
    Some(DecryptedPayload { content: p.content, sender_device: device })
}

} // verus!
