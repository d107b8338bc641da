//! The messages exchanged with an agent.
//!
//! A session only tells the variants of a message apart and hands the
//! payloads on; what is inside a key or a signature is of no concern to it.

use vstd::prelude::*;

verus! {

/// Public key material, as `ssh_key` holds it.
#[verifier::external_type_specification]
#[verifier::external_body]
pub struct ExKeyData(ssh_key::public::KeyData);

/// Private key material, as `ssh_key` holds it.
#[verifier::external_type_specification]
#[verifier::external_body]
pub struct ExKeypairData(ssh_key::private::KeypairData);

/// A signature, as `ssh_key` holds it.
#[verifier::external_type_specification]
#[verifier::external_body]
pub struct ExSignature(ssh_key::Signature);

/// A key that the agent offers for signing.
#[derive(Debug, PartialEq, Eq)]
pub struct Identity {
    /// The public key.
    pub pubkey: ssh_key::public::KeyData,
    /// The comment stored with the key.
    pub comment: String,
}

/// A request to sign data with one of the agent's keys.
#[derive(Debug, PartialEq, Eq)]
pub struct SignRequest {
    /// The public key of the identity to sign with.
    pub pubkey: ssh_key::public::KeyData,
    /// The data to sign.
    pub data: Vec<u8>,
    /// Signature flags.
    pub flags: u32,
}

/// A vendor-defined message: a name and a payload that only the vendor reads.
#[derive(Clone, Debug, PartialEq, Eq)]
pub struct Extension {
    /// The name of the extension.
    pub name: String,
    /// The payload.
    pub details: Vec<u8>,
}

/// A restriction on the use of a key.
#[derive(Clone, Debug, PartialEq, Eq)]
pub enum KeyConstraint {
    /// The key is dropped after this many seconds.
    Lifetime(u32),
    /// Every use of the key has to be confirmed.
    Confirm,
    /// A vendor-defined restriction.
    Extension(Extension),
}

/// A key to add to the agent.
#[derive(Debug, PartialEq, Eq)]
pub struct AddIdentity {
    /// The key pair.
    pub privkey: ssh_key::private::KeypairData,
    /// The comment to store with the key.
    pub comment: String,
}

/// A key to add to the agent, with restrictions on its use.
#[derive(Debug, PartialEq, Eq)]
pub struct AddIdentityConstrained {
    /// The key.
    pub identity: AddIdentity,
    /// The restrictions.
    pub constraints: Vec<KeyConstraint>,
}

/// A key to remove from the agent.
#[derive(Debug, PartialEq, Eq)]
pub struct RemoveIdentity {
    /// The public key of the identity to remove.
    pub pubkey: ssh_key::public::KeyData,
}

/// A key held on a smartcard.
#[derive(Clone, Debug, PartialEq, Eq)]
pub struct SmartcardKey {
    /// The reader holding the card.
    pub id: String,
    /// The PIN that unlocks the card.
    pub pin: String,
}

/// A smartcard key to add to the agent, with restrictions on its use.
#[derive(Clone, Debug, PartialEq, Eq)]
pub struct AddSmartcardKeyConstrained {
    /// The key.
    pub key: SmartcardKey,
    /// The restrictions.
    pub constraints: Vec<KeyConstraint>,
}

/// What a client asks of the agent.
#[derive(Debug, PartialEq, Eq)]
pub enum Request {
    /// List the identities the agent holds.
    RequestIdentities,
    /// Sign data with an identity.
    SignRequest(SignRequest),
    /// Add a key.
    AddIdentity(AddIdentity),
    /// Remove a key.
    RemoveIdentity(RemoveIdentity),
    /// Remove all keys.
    RemoveAllIdentities,
    /// Add a key held on a smartcard.
    AddSmartcardKey(SmartcardKey),
    /// Remove a key held on a smartcard.
    RemoveSmartcardKey(SmartcardKey),
    /// Lock the agent with a passphrase.
    Lock(String),
    /// Unlock the agent with a passphrase.
    Unlock(String),
    /// Add a key with restrictions.
    AddIdConstrained(AddIdentityConstrained),
    /// Add a smartcard key with restrictions.
    AddSmartcardKeyConstrained(AddSmartcardKeyConstrained),
    /// A vendor-defined request.
    Extension(Extension),
}

/// What the agent answers.
#[derive(Debug, PartialEq, Eq)]
pub enum Response {
    /// The request failed.
    Failure,
    /// The request was carried out.
    Success,
    /// The identities the agent holds, in the agent's order.
    IdentitiesAnswer(Vec<Identity>),
    /// The signature asked for.
    SignResponse(ssh_key::Signature),
    /// The vendor-defined request failed.
    ExtensionFailure,
    /// The answer to a vendor-defined request.
    ExtensionResponse(Extension),
}

} // verus!
