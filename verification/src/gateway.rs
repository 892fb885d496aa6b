//! The authorization gateway itself.
//!
//! A `Contract` holds a fixed configuration: the owner identity, the
//! whitelist of public method markers, the minimum fee for non-owner
//! callers, and the endpoint, budget and protocol of the external signer.
//! Its one operation, `sign`, decides a call: decode the payload, classify
//! the caller, enforce the whitelist and the fee, and build the request the
//! signer receives. `spec_outcome` states that decision in full, and the
//! lemmas below record the admission laws it obeys.

use vstd::prelude::*;

use crate::digest::DigestOrder;
use crate::digest::compute_digest;
use crate::digest::spec_digest;
use crate::error::SignError;
use crate::hexstr::decode_payload;
use crate::hexstr::hex_decoded;
use crate::hexstr::is_valid_hex;
use crate::textmatch::is_public_payload;
use crate::textmatch::spec_is_public;

verus! {

/// How the outbound call to the signer is shaped.
#[derive(Clone, Copy, Debug, PartialEq, Eq, Structural)]
pub enum Protocol {
    /// Three positional arguments (digest, path, key version), no deposit
    /// forwarded.
    Legacy,
    /// One structured request object, with a deposit forwarded from the
    /// gateway's own balance.
    Structured,
}

/// The gateway's fixed configuration, set at deployment.
pub struct Config {
    /// The one identity allowed to bypass the whitelist and the fee.
    pub owner: String,
    /// Hex markers whose presence anywhere in the payload text makes it
    /// public.
    pub public_method_markers: Vec<String>,
    /// The minimum payment a non-owner caller must attach, in the
    /// environment's smallest value unit.
    pub min_fee: u128,
    /// The account of the external signer.
    pub signer_account: String,
    /// The compute budget attached to the outbound call.
    pub gas: u64,
    /// The deposit forwarded with the outbound call under the structured
    /// protocol, from the gateway's own balance.
    pub signer_deposit: u128,
    /// The outbound protocol variant in use.
    pub protocol: Protocol,
    /// The digest byte order the configured signer version expects.
    pub digest_order: DigestOrder,
}

/// The request handed to the external signer: the digest to sign and the
/// routing metadata, forwarded unmodified from the call.
pub struct SignRequest {
    /// The 32-byte signing digest of the decoded payload.
    pub payload: Vec<u8>,
    /// The key derivation path, an opaque string.
    pub path: String,
    /// The key-derivation scheme version.
    pub key_version: u32,
}

impl SignRequest {
    /// A well-formed request carries a digest of exactly 32 bytes.
    pub open spec fn well_formed(&self) -> bool {
        self.payload@.len() == 32
    }
}

/// The decision `sign` makes, in full: which error refuses a call, and the
/// digest a successful one carries. Decoding is decided first, then
/// authorization, then payment; the owner bypasses the whitelist and the
/// fee.
pub open spec fn spec_outcome(
    config: Config,
    caller: Seq<char>,
    attached: u128,
    payload: Seq<char>,
) -> Result<Seq<u8>, SignError> {
    if !is_valid_hex(payload) {
        Err(SignError::DecodeError)
    } else if caller != config.owner@ && !spec_is_public(config.public_method_markers@, payload) {
        Err(SignError::AuthorizationError)
    } else if caller != config.owner@ && attached < config.min_fee {
        Err(SignError::PaymentError)
    } else {
        Ok(spec_digest(config.digest_order, hex_decoded(payload)))
    }
}

/// The authorization gateway: fixed configuration, no other state.
pub struct Contract {
    /// The deployment-time configuration.
    pub config: Config,
}

impl Contract {
    /// A gateway with the given configuration.
    pub fn with_config(config: Config) -> (c: Contract)
        ensures
            c.config == config,
    {
        Contract { config }
    }

    /// A gateway with the deployed configuration and the given owner: one
    /// whitelisted method marker, a one-unit fee, the production signer
    /// endpoint and budgets, the structured protocol, and the forward
    /// digest order.
    pub fn new(owner: String) -> (c: Contract)
        ensures
            c.config.owner == owner,
            c.config.public_method_markers@.len() == 1,
            c.config.public_method_markers@[0]@ == "6a627842000000000000000000000000"@,
            c.config.min_fee == 1000000000000000000000000u128,
            c.config.signer_account@ == "v1.signer-prod.testnet"@,
            c.config.gas == 250000000000000u64,
            c.config.signer_deposit == 50000000000000000000000u128,
            c.config.protocol == Protocol::Structured,
            c.config.digest_order == DigestOrder::Forward,
    {
        let mut markers: Vec<String> = Vec::new();
        markers.push("6a627842000000000000000000000000".to_owned());
        Contract {
            config: Config {
                owner,
                public_method_markers: markers,
                min_fee: 1000000000000000000000000u128,
                signer_account: "v1.signer-prod.testnet".to_owned(),
                gas: 250000000000000u64,
                signer_deposit: 50000000000000000000000u128,
                protocol: Protocol::Structured,
                digest_order: DigestOrder::Forward,
            },
        }
    }

    /// Decide one signing call and build the request for the signer.
    ///
    /// The payload must decode from hex; a caller other than the owner must
    /// submit a whitelisted payload and attach at least the configured fee.
    /// On success the request carries the digest of the decoded payload in
    /// the configured byte order, with the path and key version forwarded
    /// unchanged. The result agrees with `spec_outcome` exactly.
    pub fn sign(
        &self,
        caller: &String,
        attached_deposit: u128,
        rlp_payload: &String,
        path: String,
        key_version: u32,
    ) -> (r: Result<SignRequest, SignError>)
        ensures
            match r {
                Ok(req) => spec_outcome(self.config, caller@, attached_deposit, rlp_payload@)
                    == Ok::<Seq<u8>, SignError>(req.payload@) && req.path@ == path@
                    && req.key_version == key_version && req.well_formed(),
                Err(e) => spec_outcome(self.config, caller@, attached_deposit, rlp_payload@)
                    == Err::<Seq<u8>, SignError>(e),
            },
    {
        let bytes = match decode_payload(rlp_payload.as_str()) {
            Ok(v) => v,
            Err(e) => { return Err(e); },
        };
        let owner = *caller == self.config.owner;
        let public = is_public_payload(&self.config.public_method_markers, rlp_payload.as_str());
        if !public && !owner {
            return Err(SignError::AuthorizationError);
        }
        if !owner && attached_deposit < self.config.min_fee {
            return Err(SignError::PaymentError);
        }
        let digest = compute_digest(self.config.digest_order, bytes.as_slice());
        Ok(SignRequest { payload: digest, path, key_version })
    }
}

impl Default for Contract {
    /// The deployed configuration with the owner identity left empty, to be
    /// set by the host that knows its own account.
    fn default() -> (c: Contract)
        ensures
            c.config.owner@ == Seq::<char>::empty(),
            c.config.public_method_markers@.len() == 1,
            c.config.public_method_markers@[0]@ == "6a627842000000000000000000000000"@,
            c.config.min_fee == 1000000000000000000000000u128,
            c.config.signer_account@ == "v1.signer-prod.testnet"@,
            c.config.gas == 250000000000000u64,
            c.config.signer_deposit == 50000000000000000000000u128,
            c.config.protocol == Protocol::Structured,
            c.config.digest_order == DigestOrder::Forward,
    {
        Contract::new(String::new())
    }
}

/// Law: a payload that is not valid hexadecimal is refused with the decode
/// error, whoever calls and whatever payment is attached — no
/// authorization or payment decision is reached.
pub proof fn lemma_malformed_payload_refused(
    config: Config,
    caller: Seq<char>,
    attached: u128,
    payload: Seq<char>,
)
    requires
        !is_valid_hex(payload),
    ensures
        spec_outcome(config, caller, attached, payload) == Err::<Seq<u8>, SignError>(
            SignError::DecodeError,
        ),
{
}

/// Law: a caller other than the owner who submits a valid payload outside
/// the whitelist is refused with the authorization error, whatever payment
/// is attached.
pub proof fn lemma_non_owner_arbitrary_payload_refused(
    config: Config,
    caller: Seq<char>,
    attached: u128,
    payload: Seq<char>,
)
    requires
        is_valid_hex(payload),
        caller != config.owner@,
        !spec_is_public(config.public_method_markers@, payload),
    ensures
        spec_outcome(config, caller, attached, payload) == Err::<Seq<u8>, SignError>(
            SignError::AuthorizationError,
        ),
{
}

/// Law: the owner's valid payloads are admitted even outside the whitelist
/// and whatever payment is attached — the owner bypasses both the
/// authorization gate and the fee gate.
pub proof fn lemma_owner_bypasses_gates(config: Config, attached: u128, payload: Seq<char>)
    requires
        is_valid_hex(payload),
        !spec_is_public(config.public_method_markers@, payload),
    ensures
        spec_outcome(config, config.owner@, attached, payload) == Ok::<Seq<u8>, SignError>(
            spec_digest(config.digest_order, hex_decoded(payload)),
        ),
{
}

/// Law: a caller other than the owner who submits a valid whitelisted
/// payload pays the fee — below the configured minimum the call is refused
/// with the payment error, at or above it the call is admitted.
pub proof fn lemma_public_payload_fee(
    config: Config,
    caller: Seq<char>,
    attached: u128,
    payload: Seq<char>,
)
    requires
        is_valid_hex(payload),
        caller != config.owner@,
        spec_is_public(config.public_method_markers@, payload),
    ensures
        attached < config.min_fee ==> spec_outcome(config, caller, attached, payload)
            == Err::<Seq<u8>, SignError>(SignError::PaymentError),
        attached >= config.min_fee ==> spec_outcome(config, caller, attached, payload)
            == Ok::<Seq<u8>, SignError>(spec_digest(config.digest_order, hex_decoded(payload))),
{
}

/// Law: with no fee configured, a caller other than the owner is admitted
/// with nothing attached when the valid payload is whitelisted. With a
/// positive configured fee such a call is refused instead: the fee gate
/// applies to every non-owner caller, whitelisted payload or not.
pub proof fn lemma_public_payload_free_when_no_fee(
    config: Config,
    caller: Seq<char>,
    payload: Seq<char>,
)
    requires
        config.min_fee == 0,
        is_valid_hex(payload),
        caller != config.owner@,
        spec_is_public(config.public_method_markers@, payload),
    ensures
        spec_outcome(config, caller, 0, payload) == Ok::<Seq<u8>, SignError>(
            spec_digest(config.digest_order, hex_decoded(payload)),
        ),
{
}

} // verus!

