use vstd::prelude::*;

verus! {

/// What the receiver knows of the cross-signing identity of a sender.
#[derive(Debug, Clone, Copy, PartialEq, Eq)]
pub struct OwnerIdentity {
    /// The receiver has verified this identity.
    pub verified: bool,
    /// The receiver verified an earlier identity of this user, which has
    /// since been replaced.
    pub previously_verified: bool,
}

/// What the receiver knows of the device that sent an event.
#[derive(Debug, Clone, PartialEq, Eq)]
pub struct SenderDevice {
    pub user_id: String,
    pub device_id: String,
    /// The device's Ed25519 key, in base64.
    pub ed25519_key: String,
    /// The device's Curve25519 key, in base64.
    pub curve25519_key: String,
    /// The receiver marked this device as trusted by hand.
    pub locally_trusted: bool,
    /// The device carries a valid signature of its owner's self-signing key.
    pub cross_signed_by_owner: bool,
    /// The owner's cross-signing identity, where one is known.
    pub owner_identity: Option<OwnerIdentity>,
}

/// Why a sender is not verified.
#[derive(Debug, Clone, Copy, PartialEq, Eq)]
pub enum UnverifiedReason {
    /// The sender's identity was verified once and has changed since.
    VerificationViolation,
    /// The sender's identity is known but not verified.
    UnverifiedIdentity,
    /// The device is neither covered by a verified identity nor trusted by hand.
    UnverifiedDevice,
}

/// The trust attached to a decrypted event.
#[derive(Debug, Clone, Copy, PartialEq, Eq)]
pub enum VerificationState {
    Verified,
    Unverified(UnverifiedReason),
}

/// The device is trusted: by hand, or through a verified identity that signed it.
pub open spec fn device_is_verified(d: SenderDevice) -> bool {
    d.locally_trusted || (d.cross_signed_by_owner && (d.owner_identity matches Some(i) && i.verified))
}

/// The trust of a sender device, the most specific reason first.
pub open spec fn verification_state_of(d: Option<SenderDevice>) -> VerificationState {
    match d {
        None => VerificationState::Unverified(UnverifiedReason::UnverifiedDevice),
        Some(d) => if device_is_verified(d) {
            VerificationState::Verified
        } else {
            match d.owner_identity {
                Some(i) => if i.previously_verified && !i.verified {
                    VerificationState::Unverified(UnverifiedReason::VerificationViolation)
                } else if !i.verified {
                    VerificationState::Unverified(UnverifiedReason::UnverifiedIdentity)
                } else {
                    VerificationState::Unverified(UnverifiedReason::UnverifiedDevice)
                },
                None => VerificationState::Unverified(UnverifiedReason::UnverifiedDevice),
            }
        },
    }
}

impl SenderDevice {
    /// A copy of this device.
    pub fn copy(&self) -> (r: SenderDevice)
        ensures
            r == *self,
    {
        SenderDevice {
            user_id: self.user_id.clone(),
            device_id: self.device_id.clone(),
            ed25519_key: self.ed25519_key.clone(),
            curve25519_key: self.curve25519_key.clone(),
            locally_trusted: self.locally_trusted,
            cross_signed_by_owner: self.cross_signed_by_owner,
            owner_identity: self.owner_identity,
        }
    }

    /// Whether the receiver trusts this device.
    pub fn is_verified(&self) -> (r: bool)
        ensures
            r == device_is_verified(*self),
    {
        if self.locally_trusted {
            return true;
        }
        match self.owner_identity {
            Some(i) => self.cross_signed_by_owner && i.verified,
            None => false,
        }
    }
}

/// Computes the trust of a sender device; an unknown device is unverified.
pub fn verification_state(device: &Option<SenderDevice>) -> (r: VerificationState)
    ensures
        r == verification_state_of(*device),
{
    match device {
        None => VerificationState::Unverified(UnverifiedReason::UnverifiedDevice),
        Some(d) => {
            if d.is_verified() {
                VerificationState::Verified
            } else {
                match d.owner_identity {
                    Some(i) => {
                        if i.previously_verified && !i.verified {
                            VerificationState::Unverified(UnverifiedReason::VerificationViolation)
                        } else if !i.verified {
                            VerificationState::Unverified(UnverifiedReason::UnverifiedIdentity)
                        } else {
                            VerificationState::Unverified(UnverifiedReason::UnverifiedDevice)
                        }
                    },
                    None => VerificationState::Unverified(UnverifiedReason::UnverifiedDevice),
                }
            }
        },
    }
}

/// Trust set by hand suffices on its own: such a device is verified whatever
/// is known of its owner's identity.
pub proof fn lemma_local_trust_suffices(d: SenderDevice)
    requires
        d.locally_trusted,
    ensures
        verification_state_of(Some(d)) == VerificationState::Verified,
{
}

/// A verified identity that signed the device suffices on its own, without
/// trust set by hand.
pub proof fn lemma_cross_signing_suffices(d: SenderDevice, i: OwnerIdentity)
    requires
        d.cross_signed_by_owner,
        d.owner_identity == Some(i),
        i.verified,
    ensures
        verification_state_of(Some(d)) == VerificationState::Verified,
{
}

} // verus!
