//! The identifier under which a validator takes part in the protocol.

use vstd::prelude::*;
use sp_core::crypto::Ss58Codec;
use crate::network::identity::ValidatorId;

verus! {

/// The participant identifier that FROST over Ed25519 derives from `input`,
/// in its serialized form. `None` where the derivation fails.
pub uninterp spec fn frost_identifier(input: Seq<u8>) -> Option<Seq<u8>>;

/// Calls `frost_ed25519::Identifier::derive` and serializes what it returns.
/// Trusted to compute what [`frost_identifier`] names.
#[verifier::external_body]
pub(crate) fn derive_identifier(input: &[u8]) -> (identifier: Option<Vec<u8>>)
    ensures
        match identifier {
            Some(bytes) => frost_identifier(input@) == Some(bytes@),
            None => frost_identifier(input@) is None,
        },
{
    match frost_ed25519::Identifier::derive(input) {
        Ok(identifier) => Some(identifier.serialize()),
        Err(_) => None,
    }
}

/// The SS58 text of the public key `key` under the address format `format`,
/// as UTF-8 bytes.
pub uninterp spec fn ss58_text(format: u16, key: Seq<u8>) -> Seq<u8>;

/// The participant identifier of the validator with the public key `key`,
/// where keys are displayed in the address format `format`: the identifier
/// that is derived from the SS58 text of the key. `None` where the derivation
/// fails.
pub open spec fn participant_of(key: Seq<u8>, format: u16) -> Option<Seq<u8>> {
    frost_identifier(ss58_text(format, key))
}

/// Calls `sp_core::crypto::default_ss58_version`: the address format in which
/// the process displays keys. The process can select another at any time, so
/// nothing is claimed of the number.
#[verifier::external_body]
pub(crate) fn display_format() -> (format: u16)
{
    u16::from(sp_core::crypto::default_ss58_version())
}

/// Calls `sp_core::crypto::Ss58Codec::to_ss58check_with_version` on the key
/// as an `sp_core::sr25519::Public`. Trusted to return the text that
/// [`ss58_text`] names. Under the format of [`display_format`] this is the
/// text that displays the key.
#[verifier::external_body]
pub(crate) fn display_label(validator_id: &ValidatorId, format: u16) -> (label: Vec<u8>)
    ensures
        label@ == ss58_text(format, validator_id@),
{
    sp_core::sr25519::Public::from_raw(validator_id.bytes).to_ss58check_with_version(
        sp_core::crypto::Ss58AddressFormat::custom(format),
    ).into_bytes()
}

} // verus!
