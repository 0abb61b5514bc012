//! Signed address records: what a validator publishes about itself, and the
//! key under which the record is stored.

use vstd::prelude::*;
use crate::bytes::{bytes_to_vec, concat, flatten, views};
use crate::network::crypto::{
    decode_signature, digest, encode_signature, sha2_256, sr25519_valid, sr25519_verify,
};
use crate::network::identity::ValidatorId;

verus! {

/// What a keystore answered when asked to sign with one of its keys.
#[derive(Debug)]
pub enum KeystoreReply {
    /// The signature it produced.
    Signed([u8; 64]),
    /// The keystore no longer holds the key.
    Missing,
    /// The keystore failed, for the reason given.
    Failed(String),
}

/// Why a set of records could not be signed.
#[derive(Debug)]
pub enum SignError {
    /// The keystore failed while signing with `key`.
    Keystore { key: ValidatorId, reason: String },
    /// The keystore did not hold `key` when asked to sign with it.
    KeyNotFound { key: ValidatorId },
}

/// A serialized address record, the validator it belongs to, and that
/// validator's signature over the record.
#[derive(Debug)]
pub struct SignedValidatorRecord {
    pub record: Vec<Vec<u8>>,
    pub validator_id: ValidatorId,
    pub auth_signature: Vec<u8>,
}

/// The outcome of the first reply that is no signature, if there is one.
pub open spec fn first_refusal(replies: Seq<(ValidatorId, KeystoreReply)>) -> Option<int> {
    if exists|i: int| 0 <= i < replies.len() && !((#[trigger] replies[i]).1 is Signed) {
        Some(
            choose|i: int|
                0 <= i < replies.len() && !((#[trigger] replies[i]).1 is Signed) && forall|j: int|
                    0 <= j < i ==> (#[trigger] replies[j]).1 is Signed,
        )
    } else {
        None
    }
}

/// Whether `signature` signs `payload` for the validator with the public key
/// `key`: the payload is short enough to be signed, and the signature is a
/// valid sr25519 signature of it under the key.
pub open spec fn signs(signature: Seq<u8>, payload: Seq<u8>, key: Seq<u8>) -> bool {
    payload.len() <= u32::MAX && sr25519_valid(signature, payload, key)
}

/// Whether `error` reports the refusal `reply` of the keystore for `key`.
pub open spec fn reports(error: SignError, key: ValidatorId, reply: KeystoreReply) -> bool {
    match reply {
        KeystoreReply::Signed(_) => false,
        KeystoreReply::Missing => error matches SignError::KeyNotFound { key: k } && k@ == key@,
        KeystoreReply::Failed(reason) => error matches SignError::Keystore { key: k, reason: r }
            && k@ == key@ && r@ == reason@,
    }
}

impl Clone for SignedValidatorRecord {
    fn clone(&self) -> (copy: Self)
        ensures
            views(copy.record@) == views(self.record@),
            copy.validator_id@ == self.validator_id@,
            copy.auth_signature@ == self.auth_signature@,
            copy.payload() == self.payload(),
            copy.verifies() == self.verifies(),
    {
        SignedValidatorRecord {
            record: clone_segments(&self.record),
            validator_id: self.validator_id,
            auth_signature: bytes_to_vec(self.auth_signature.as_slice()),
        }
    }
}

impl SignedValidatorRecord {
    /// The key under which the record of `validator` is stored: the SHA-256
    /// digest of the validator's public key.
    pub open spec fn key_of(validator: Seq<u8>) -> Seq<u8> {
        sha2_256(validator)
    }

    /// The bytes that the signature covers: the segments of the record, one
    /// after the other.
    pub open spec fn payload(&self) -> Seq<u8> {
        concat(views(self.record@))
    }

    /// Whether the record carries a valid signature of its validator: its
    /// first 64 signature bytes are an sr25519 signature of the payload under
    /// the validator's key. A payload whose length does not fit 32 bits is
    /// beyond what a signature can cover, and never verifies.
    pub open spec fn verifies(&self) -> bool {
        &&& self.auth_signature@.len() >= 64
        &&& self.payload().len() <= u32::MAX
        &&& sr25519_valid(
            self.auth_signature@.subrange(0, 64),
            self.payload(),
            self.validator_id@,
        )
    }

    /// Derives the storage key of a validator's record from its identity.
    pub fn key(validator_id: &ValidatorId) -> (key: Vec<u8>)
        ensures
            key@ == Self::key_of(validator_id@),
    {
        let hash = digest(validator_id.bytes.as_slice());
        bytes_to_vec(hash.as_slice())
    }

    /// Checks the signature of the record. A signature that cannot be
    /// decoded, or a payload too long to be signed, makes the record invalid.
    pub fn verify_signature(&self) -> (valid: bool)
        ensures
            valid == self.verifies(),
    {
        match decode_signature(self.auth_signature.as_slice()) {
            Some(signature) => {
                let message = flatten(&self.record);
                if message.len() > 0xffff_ffff {
                    false
                } else {
                    sr25519_verify(&signature, message.as_slice(), &self.validator_id.bytes)
                }
            },
            None => false,
        }
    }

    /// The bytes to hand to the keystore for signing `serialized_record`.
    pub fn signing_payload(serialized_record: &Vec<Vec<u8>>) -> (payload: Vec<u8>)
        ensures
            payload@ == concat(views(serialized_record@)),
    {
        flatten(serialized_record)
    }

    /// Builds one signed record per key from what the keystore answered for
    /// it, each paired with its storage key. `signatures` holds, in the
    /// keystore's order, every authority key with the keystore's reply to
    /// signing [`Self::signing_payload`] of `serialized_record`. If any reply
    /// is no signature the whole operation fails with the first such reply.
    pub fn sign_record(
        signatures: Vec<(ValidatorId, KeystoreReply)>,
        serialized_record: Vec<Vec<u8>>,
    ) -> (signed: Result<Vec<(Self, Vec<u8>)>, SignError>)
        ensures
            match signed {
                Ok(list) => {
                    &&& first_refusal(signatures@) is None
                    &&& list@.len() == signatures@.len()
                    &&& forall|i: int|
                        0 <= i < list@.len() ==> {
                            &&& signatures@[i].1 matches KeystoreReply::Signed(signature)
                            &&& views((#[trigger] list@[i]).0.record@) == views(serialized_record@)
                            &&& list@[i].0.validator_id@ == signatures@[i].0@
                            &&& list@[i].0.auth_signature@ == signature@
                            &&& list@[i].1@ == Self::key_of(signatures@[i].0@)
                            &&& list@[i].0.verifies() == signs(
                                signature@,
                                concat(views(serialized_record@)),
                                signatures@[i].0@,
                            )
                        }
                },
                Err(error) => first_refusal(signatures@) matches Some(at) && reports(
                    error,
                    signatures@[at].0,
                    signatures@[at].1,
                ),
            },
    {
        let ghost replies = signatures@;
        let mut list: Vec<(Self, Vec<u8>)> = Vec::new();
        let mut i: usize = 0;
        while i < signatures.len()
            invariant
                i <= signatures@.len(),
                signatures@ == replies,
                list@.len() == i,
                forall|k: int| 0 <= k < i ==> (#[trigger] replies[k]).1 is Signed,
                forall|k: int|
                    0 <= k < i ==> {
                        &&& replies[k].1 matches KeystoreReply::Signed(signature)
                        &&& views((#[trigger] list@[k]).0.record@) == views(serialized_record@)
                        &&& list@[k].0.validator_id@ == replies[k].0@
                        &&& list@[k].0.auth_signature@ == signature@
                        &&& list@[k].1@ == Self::key_of(replies[k].0@)
                        &&& list@[k].0.verifies() == signs(
                            signature@,
                            concat(views(serialized_record@)),
                            replies[k].0@,
                        )
                    },
            decreases signatures@.len() - i,
        {
            let key = signatures[i].0;
            match &signatures[i].1 {
                KeystoreReply::Signed(signature) => {
                    let signed_record = SignedValidatorRecord {
                        record: clone_segments(&serialized_record),
                        validator_id: key,
                        auth_signature: encode_signature(signature),
                    };
                    proof {
                        lemma_signed_record_verifies(signed_record, *signature);
                    }
                    list.push((signed_record, Self::key(&key)));
                },
                KeystoreReply::Missing => {
                    proof {
                        lemma_first_refusal(replies, i as int);
                    }
                    return Err(SignError::KeyNotFound { key });
                },
                KeystoreReply::Failed(reason) => {
                    proof {
                        lemma_first_refusal(replies, i as int);
                    }
                    return Err(SignError::Keystore { key, reason: reason.clone() });
                },
            }
            i = i + 1;
        }
        Ok(list)
    }
}

/// The first reply that is no signature is the one before which every reply
/// is a signature.
pub proof fn lemma_first_refusal(replies: Seq<(ValidatorId, KeystoreReply)>, at: int)
    requires
        0 <= at < replies.len(),
        !(replies[at].1 is Signed),
        forall|j: int| 0 <= j < at ==> (#[trigger] replies[j]).1 is Signed,
    ensures
        first_refusal(replies) == Some(at),
{
    let found = choose|i: int|
        0 <= i < replies.len() && !((#[trigger] replies[i]).1 is Signed) && forall|j: int|
            0 <= j < i ==> (#[trigger] replies[j]).1 is Signed;
    if found < at {
        assert(replies[found].1 is Signed);
    }
    if at < found {
        assert(replies[at].1 is Signed);
    }
}

/// Copies the segments of a record.
pub fn clone_segments(segments: &Vec<Vec<u8>>) -> (copy: Vec<Vec<u8>>)
    ensures
        views(copy@) == views(segments@),
{
    let mut copy: Vec<Vec<u8>> = Vec::new();
    let mut i: usize = 0;
    while i < segments.len()
        invariant
            i <= segments.len(),
            copy@.len() == i,
            forall|k: int| 0 <= k < i ==> (#[trigger] copy@[k])@ == segments@[k]@,
        decreases segments.len() - i,
    {
        copy.push(bytes_to_vec(segments[i].as_slice()));
        i = i + 1;
    }
    assert(views(copy@) =~= views(segments@));
    copy
}

/// Equal identities have equal storage keys: the key is a function of the
/// validator's bytes and of nothing else.
pub proof fn lemma_key_of_identity(a: ValidatorId, b: ValidatorId)
    requires
        a@ == b@,
    ensures
        SignedValidatorRecord::key_of(a@) == SignedValidatorRecord::key_of(b@),
{
}

/// A record that holds the 64 bytes of a signature verifies exactly when that
/// signature signs the record's payload for its validator. So every record
/// that [`SignedValidatorRecord::sign_record`] builds from a keystore's valid
/// signature of the payload passes
/// [`SignedValidatorRecord::verify_signature`].
pub proof fn lemma_signed_record_verifies(record: SignedValidatorRecord, signature: [u8; 64])
    requires
        record.auth_signature@ == signature@,
    ensures
        record.verifies() == signs(signature@, record.payload(), record.validator_id@),
{
    assert(signature@.subrange(0, 64) =~= signature@);
}

} // verus!
