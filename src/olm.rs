use vstd::prelude::*;

use crate::identity::Identity;

verus! {

/// Relies on vodozemac's Olm session: the ratchet shared with one sender device.
#[verifier::external_type_specification]
#[verifier::external_body]
pub struct ExOlmSession(vodozemac::olm::Session);

/// An Olm session, with the Curve25519 key of the device at its other end.
pub struct OlmSessionEntry {
    /// The sender's Curve25519 key, in base64.
    pub sender_key: String,
    pub session: vodozemac::olm::Session,
}

/// Whether vodozemac's `Curve25519PublicKey::from_base64` reads a key from
/// this text.
pub uninterp spec fn curve25519_key_decodes(key: Seq<char>) -> bool;

/// Whether vodozemac's `PreKeyMessage::from_base64` reads a pre-key message
/// from this text.
pub uninterp spec fn pre_key_message_decodes(ciphertext: Seq<char>) -> bool;

/// Whether vodozemac's `OlmMessage::from_parts` reads an Olm message of this
/// type from the base64-decoded text.
pub uninterp spec fn olm_message_decodes(message_type: usize, ciphertext: Seq<char>) -> bool;

/// An Olm message that the receiver could decrypt: one that reads as a
/// message of its type, or a pre-key message from a valid sender key.
pub open spec fn olm_decodable(message_type: usize, ciphertext: Seq<char>, sender_key: Seq<char>) -> bool {
    olm_message_decodes(message_type, ciphertext)
        || (message_type == 0 && pre_key_message_decodes(ciphertext) && curve25519_key_decodes(sender_key))
}

/// Relies on vodozemac's `Account::create_inbound_session`, which consumes
/// the one-time key the pre-key message names; the sender key and the
/// message are decoded from base64 first. `None` where any step fails.
#[verifier::external_body]
fn olm_create_inbound_session(account: &mut vodozemac::olm::Account, sender_key: &str, ciphertext: &str) -> (r: Option<(vodozemac::olm::Session, Vec<u8>)>)
    ensures
        r is Some ==> curve25519_key_decodes(sender_key@) && pre_key_message_decodes(ciphertext@),
{
    let key = vodozemac::Curve25519PublicKey::from_base64(sender_key).ok()?;
    let message = vodozemac::olm::PreKeyMessage::from_base64(ciphertext).ok()?;
    account.create_inbound_session(key, &message).ok().map(|r| (r.session, r.plaintext))
}

/// Relies on vodozemac's `Session::decrypt`; the message is decoded from its
/// type and base64 first. `None` where any step fails.
#[verifier::external_body]
fn olm_session_decrypt(session: &mut vodozemac::olm::Session, message_type: usize, ciphertext: &str) -> (r: Option<Vec<u8>>)
    ensures
        r is Some ==> olm_message_decodes(message_type, ciphertext@),
{
    let bytes = vodozemac::base64_decode(ciphertext).ok()?;
    let message = vodozemac::olm::OlmMessage::from_parts(message_type, &bytes).ok()?;
    session.decrypt(&message).ok()
}

/// Decrypts an Olm message from the device of this Curve25519 key: first
/// with the sessions already shared with it, then, for a pre-key message
/// (type 0), with a new inbound session, which is kept. `None` where nothing
/// decrypts it. The receiver's ids and keys stay as they are; the sessions
/// keep their sender keys, and only a pre-key message that decrypts adds one.
pub fn decrypt_olm(receiver: &mut Identity, sessions: &mut Vec<OlmSessionEntry>, sender_key: &String, message_type: usize, ciphertext: &String) -> (r: Option<Vec<u8>>)
    ensures
        final(receiver).user_id == old(receiver).user_id,
        final(receiver).device_id == old(receiver).device_id,
        final(receiver).ed25519_key == old(receiver).ed25519_key,
        final(receiver).curve25519_key == old(receiver).curve25519_key,
        final(receiver).dehydrated == old(receiver).dehydrated,
        final(receiver).has_fallback_key == old(receiver).has_fallback_key,
        r is Some ==> olm_decodable(message_type, ciphertext@, sender_key@),
        r is Some && message_type != 0 ==> exists|j: int| 0 <= j < old(sessions)@.len() && (#[trigger] old(sessions)@[j]).sender_key@ == sender_key@,
        forall|j: int| 0 <= j < old(sessions)@.len() ==> (#[trigger] final(sessions)@[j]).sender_key == old(sessions)@[j].sender_key,
        final(sessions)@.len() == old(sessions)@.len() || (final(sessions)@.len() == old(sessions)@.len() + 1
            && message_type == 0 && r is Some && final(sessions)@.last().sender_key == *sender_key),
{
    let mut i: usize = 0;
    while i < sessions.len()
        invariant
            i <= sessions@.len(),
            sessions@.len() == old(sessions)@.len(),
            forall|j: int| 0 <= j < old(sessions)@.len() ==> (#[trigger] sessions@[j]).sender_key == old(sessions)@[j].sender_key,
            *receiver == *old(receiver),
        decreases sessions@.len() - i,
    {
        if sessions[i].sender_key == *sender_key {
            let ghost before = sessions@;
            let mut entry = sessions.remove(i);
            let plaintext = olm_session_decrypt(&mut entry.session, message_type, ciphertext.as_str());
            sessions.insert(i, entry);
            assert forall|j: int| 0 <= j < old(sessions)@.len() implies (#[trigger] sessions@[j]).sender_key == old(sessions)@[j].sender_key by {
                if j != i as int {
                    assert(sessions@[j] == before[j]);
                }
            }
            if plaintext.is_some() {
                assert(old(sessions)@[i as int].sender_key@ == sender_key@);
                return plaintext;
            }
        }
        i = i + 1;
    }
    if message_type != 0 {
        return None;
    }
    match olm_create_inbound_session(&mut receiver.inner, sender_key.as_str(), ciphertext.as_str()) {
        Some((session, plaintext)) => {
            sessions.push(OlmSessionEntry { sender_key: sender_key.clone(), session });
            Some(plaintext)
        },
        None => None,
    }
}

} // verus!
