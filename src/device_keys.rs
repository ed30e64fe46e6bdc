use vstd::prelude::*;

use crate::error::DehydrationError;

verus! {

/// The Ed25519 signature, in base64, that a secret key makes over the UTF-8
/// bytes of a message.
pub uninterp spec fn ed25519_signature_of(secret_key: Seq<u8>, message: Seq<char>) -> Seq<char>;

/// The public Ed25519 key, in base64, of a secret key.
pub uninterp spec fn ed25519_public_key_of(secret_key: Seq<u8>) -> Seq<char>;

/// Relies on `str::chars`: the characters of a string, in order.
#[verifier::external_body]
pub(crate) fn chars_of(s: &str) -> (r: Vec<char>)
    ensures
        r@ == s@,
{
    s.chars().collect()
}

/// Relies on `String`'s `FromIterator<&char>`: the string of these characters.
#[verifier::external_body]
pub(crate) fn string_of(chars: &Vec<char>) -> (r: String)
    ensures
        r@ == chars@,
{
    chars.iter().collect()
}

/// Relies on vodozemac's `Ed25519SecretKey::sign`, which is deterministic,
/// over the UTF-8 bytes of the message; the signature is written in base64.
#[verifier::external_body]
fn ed25519_sign(secret_key: &[u8; 32], message: &str) -> (r: String)
    ensures
        r@ == ed25519_signature_of(secret_key@, message@),
{
    vodozemac::Ed25519SecretKey::from_slice(secret_key).sign(message.as_bytes()).to_base64()
}

/// Relies on vodozemac's `Ed25519SecretKey::public_key`, written in base64.
#[verifier::external_body]
fn ed25519_public_key(secret_key: &[u8; 32]) -> (r: String)
    ensures
        r@ == ed25519_public_key_of(secret_key@),
{
    vodozemac::Ed25519SecretKey::from_slice(secret_key).public_key().to_base64()
}

/// A signature of a device's keys.
#[derive(Debug, Clone, PartialEq, Eq)]
pub struct DeviceSignature {
    /// The user whose key signed.
    pub signer: String,
    /// `ed25519:` and the signing public key.
    pub key_id: String,
    pub signature: String,
}

/// The public keys of a device, as published.
#[derive(Debug, Clone, PartialEq, Eq)]
pub struct DeviceKeys {
    pub user_id: String,
    pub device_id: String,
    /// The Ed25519 key, in base64.
    pub ed25519_key: String,
    /// The Curve25519 key, in base64.
    pub curve25519_key: String,
    /// The keys belong to a dehydrated device.
    pub dehydrated: bool,
    pub signatures: Vec<DeviceSignature>,
}

/// The JSON escape of one character.
pub open spec fn escape_char(c: char) -> Seq<char> {
    if c == '"' {
        seq!['\\', '"']
    } else if c == '\\' {
        seq!['\\', '\\']
    } else if c == '\n' {
        seq!['\\', 'n']
    } else if c == '\r' {
        seq!['\\', 'r']
    } else if c == '\t' {
        seq!['\\', 't']
    } else if c == '\u{8}' {
        seq!['\\', 'b']
    } else if c == '\u{c}' {
        seq!['\\', 'f']
    } else if (c as u32) < 0x10 {
        seq!['\\', 'u', '0', '0', '0', hex_digit(c as u32)]
    } else if (c as u32) < 0x20 {
        seq!['\\', 'u', '0', '0', '1', hex_digit(((c as u32) - 0x10) as u32)]
    } else {
        seq![c]
    }
}

/// The lower-case hex digit of a number under 16.
pub open spec fn hex_digit(n: u32) -> char {
    if n == 0 { '0' } else if n == 1 { '1' } else if n == 2 { '2' } else if n == 3 { '3' }
    else if n == 4 { '4' } else if n == 5 { '5' } else if n == 6 { '6' } else if n == 7 { '7' }
    else if n == 8 { '8' } else if n == 9 { '9' } else if n == 10 { 'a' } else if n == 11 { 'b' }
    else if n == 12 { 'c' } else if n == 13 { 'd' } else if n == 14 { 'e' } else { 'f' }
}

/// The JSON escape of a text.
pub open spec fn escaped(s: Seq<char>) -> Seq<char>
    decreases s.len(),
{
    if s.len() == 0 {
        seq![]
    } else {
        escaped(s.drop_last()) + escape_char(s.last())
    }
}

/// A JSON string literal of a text.
pub open spec fn json_string(s: Seq<char>) -> Seq<char> {
    seq!['"'] + escaped(s) + seq!['"']
}

/// The canonical JSON of device keys without their signatures: keys sorted,
/// no spaces. This is what a signature covers.
pub open spec fn canonical_json_spec(k: DeviceKeys) -> Seq<char> {
    "{\"algorithms\":[\"m.olm.v1.curve25519-aes-sha2\",\"m.megolm.v1.aes-sha2\"],"@
        + (if k.dehydrated { "\"dehydrated\":true,"@ } else { seq![] })
        + "\"device_id\":"@ + json_string(k.device_id@)
        + ",\"keys\":{\"curve25519:"@ + escaped(k.device_id@) + "\":"@ + json_string(k.curve25519_key@)
        + ",\"ed25519:"@ + escaped(k.device_id@) + "\":"@ + json_string(k.ed25519_key@)
        + "},\"user_id\":"@ + json_string(k.user_id@) + "}"@
}

fn hex_digit_exec(n: u32) -> (r: char)
    requires
        n < 16,
    ensures
        r == hex_digit(n),
{
    if n == 0 { '0' } else if n == 1 { '1' } else if n == 2 { '2' } else if n == 3 { '3' }
    else if n == 4 { '4' } else if n == 5 { '5' } else if n == 6 { '6' } else if n == 7 { '7' }
    else if n == 8 { '8' } else if n == 9 { '9' } else if n == 10 { 'a' } else if n == 11 { 'b' }
    else if n == 12 { 'c' } else if n == 13 { 'd' } else if n == 14 { 'e' } else { 'f' }
}

/// Appends the JSON escape of one character.
fn push_escaped_char(out: &mut Vec<char>, c: char)
    ensures
        final(out)@ == old(out)@ + escape_char(c),
{
    let ghost start = out@;
    if c == '"' {
        out.push('\\'); out.push('"');
    } else if c == '\\' {
        out.push('\\'); out.push('\\');
    } else if c == '\n' {
        out.push('\\'); out.push('n');
    } else if c == '\r' {
        out.push('\\'); out.push('r');
    } else if c == '\t' {
        out.push('\\'); out.push('t');
    } else if c == '\u{8}' {
        out.push('\\'); out.push('b');
    } else if c == '\u{c}' {
        out.push('\\'); out.push('f');
    } else if (c as u32) < 0x10 {
        out.push('\\'); out.push('u'); out.push('0'); out.push('0'); out.push('0');
        out.push(hex_digit_exec(c as u32));
    } else if (c as u32) < 0x20 {
        out.push('\\'); out.push('u'); out.push('0'); out.push('0'); out.push('1');
        out.push(hex_digit_exec((c as u32) - 0x10));
    } else {
        out.push(c);
    }
    assert(out@ =~= start + escape_char(c));
}

/// Appends the JSON escape of a text.
fn push_escaped(out: &mut Vec<char>, s: &str)
    ensures
        final(out)@ == old(out)@ + escaped(s@),
{
    let chars = chars_of(s);
    let ghost start = out@;
    let mut i: usize = 0;
    while i < chars.len()
        invariant
            i <= chars@.len(),
            chars@ == s@,
            out@ == start + escaped(chars@.subrange(0, i as int)),
        decreases chars@.len() - i,
    {
        push_escaped_char(out, chars[i]);
        assert(chars@.subrange(0, i + 1).drop_last() =~= chars@.subrange(0, i as int));
        assert(out@ =~= start + escaped(chars@.subrange(0, i + 1)));
        i = i + 1;
    }
    assert(chars@.subrange(0, chars@.len() as int) =~= chars@);
}

/// Appends a text as it stands.
pub(crate) fn push_text(out: &mut Vec<char>, s: &str)
    ensures
        final(out)@ == old(out)@ + s@,
{
    let mut chars = chars_of(s);
    out.append(&mut chars);
}

/// Appends a JSON string literal.
pub(crate) fn push_json_string(out: &mut Vec<char>, s: &str)
    ensures
        final(out)@ == old(out)@ + json_string(s@),
{
    let ghost start = out@;
    out.push('"');
    push_escaped(out, s);
    out.push('"');
    assert(out@ =~= start + json_string(s@));
}

impl DeviceKeys {
    /// The canonical JSON of these keys without their signatures.
    pub fn canonical_json(&self) -> (r: String)
        ensures
            r@ == canonical_json_spec(*self),
    {
        let mut out: Vec<char> = Vec::new();
        push_text(&mut out, "{\"algorithms\":[\"m.olm.v1.curve25519-aes-sha2\",\"m.megolm.v1.aes-sha2\"],");
        if self.dehydrated {
            push_text(&mut out, "\"dehydrated\":true,");
        }
        push_text(&mut out, "\"device_id\":");
        push_json_string(&mut out, self.device_id.as_str());
        push_text(&mut out, ",\"keys\":{\"curve25519:");
        push_escaped(&mut out, self.device_id.as_str());
        push_text(&mut out, "\":");
        push_json_string(&mut out, self.curve25519_key.as_str());
        push_text(&mut out, ",\"ed25519:");
        push_escaped(&mut out, self.device_id.as_str());
        push_text(&mut out, "\":");
        push_json_string(&mut out, self.ed25519_key.as_str());
        push_text(&mut out, "},\"user_id\":");
        push_json_string(&mut out, self.user_id.as_str());
        push_text(&mut out, "}");
        assert(out@ =~= canonical_json_spec(*self));
        string_of(&out)
    }
}

/// The private cross-signing identity of a user: its self-signing key, if
/// it has been set up.
#[derive(Debug, Clone, Copy)]
pub struct PrivateCrossSigningIdentity {
    /// The secret Ed25519 self-signing key.
    pub self_signing_key: Option<[u8; 32]>,
}

/// The signature that a self-signing key adds to device keys.
pub open spec fn self_signature_spec(user_id: Seq<char>, secret_key: Seq<u8>, keys: DeviceKeys) -> (Seq<char>, Seq<char>, Seq<char>) {
    (user_id, "ed25519:"@ + ed25519_public_key_of(secret_key), ed25519_signature_of(secret_key, canonical_json_spec(keys)))
}

impl PrivateCrossSigningIdentity {
    /// Signs device keys with the self-signing key, adding a signature by the
    /// keys' user; fails without changing them where there is no such key.
    pub fn sign_device_keys(&self, keys: &mut DeviceKeys) -> (r: Result<(), DehydrationError>)
        ensures
            self.self_signing_key is None <==> r is Err,
            r matches Err(e) ==> (e matches DehydrationError::MissingSigningKey && *final(keys) == *old(keys)),
            r is Ok ==> ({
                let sig = final(keys).signatures@.last();
                let expected = self_signature_spec(old(keys).user_id@, self.self_signing_key.unwrap()@, *old(keys));
                &&& final(keys).user_id == old(keys).user_id
                &&& final(keys).device_id == old(keys).device_id
                &&& final(keys).ed25519_key == old(keys).ed25519_key
                &&& final(keys).curve25519_key == old(keys).curve25519_key
                &&& final(keys).dehydrated == old(keys).dehydrated
                &&& final(keys).signatures@ == old(keys).signatures@.push(sig)
                &&& (sig.signer@, sig.key_id@, sig.signature@) == expected
            }),
    {
        match &self.self_signing_key {
            None => Err(DehydrationError::MissingSigningKey),
            Some(secret) => {
                let message = keys.canonical_json();
                let signature = ed25519_sign(secret, message.as_str());
                let mut key_id: Vec<char> = Vec::new();
                push_text(&mut key_id, "ed25519:");
                let public = ed25519_public_key(secret);
                push_text(&mut key_id, public.as_str());
                let key_id = string_of(&key_id);
                let signer = keys.user_id.clone();
                keys.signatures.push(DeviceSignature { signer, key_id, signature });
                Ok(())
            },
        }
    }
}

} // verus!
