//! What the router has from `lightning`, `lightning_types` and `bitcoin`.
//!
//! The types are opaque: values of them are carried through and handed on. The functions each make
//! one call; what the router believes of the call is their contract.

use bitcoin::secp256k1::{PublicKey, Secp256k1};
use lightning::blinded_path::payment::BlindedPayInfo as LdkPayInfo;
use lightning::blinded_path::payment::BlindedPaymentPath;
use lightning::blinded_path::payment::ForwardNode as LdkForwardNode;
use lightning::blinded_path::payment::ForwardTlvs as LdkForwardTlvs;
use lightning::blinded_path::payment::PaymentConstraints as LdkConstraints;
use lightning::blinded_path::payment::PaymentContext;
use lightning::blinded_path::payment::PaymentRelay as LdkRelay;
use lightning::blinded_path::payment::ReceiveTlvs as LdkReceiveTlvs;
use lightning::blinded_path::payment::TrampolineForwardTlvs as LdkTrampolineTlvs;
use lightning::blinded_path::BlindedHop;
use lightning::ln::channel_state::ChannelDetails;
use lightning::ln::channelmanager::MIN_FINAL_CLTV_EXPIRY_DELTA;
use lightning::ln::functional_test_utils::create_trampoline_forward_blinded_tail;
use lightning::sign::{EntropySource, KeysManager, RandomBytes, ReceiveAuthKey};
use lightning_types::features::BlindedHopFeatures;
use lightning_types::payment::PaymentSecret;
use vstd::prelude::*;

use crate::payload::{BlindedPathParts, BlindedPayInfo, ForwardNode, Hop, PayInfo, ReceiveTlvs};

verus! {

/// `bitcoin::secp256k1::PublicKey`: the identity of a node, or a blinding point.
#[verifier::external_type_specification]
#[verifier::external_body]
pub struct ExPublicKey(PublicKey);

/// `lightning::blinded_path::payment::PaymentContext`: what a payment is for.
#[verifier::external_type_specification]
#[verifier::external_body]
pub struct ExPaymentContext(PaymentContext);

/// `Clone::clone` of `lightning::blinded_path::payment::PaymentContext`, which is derived: it returns
/// the same context.
pub assume_specification[ <PaymentContext as Clone>::clone ](context: &PaymentContext) -> (copy:
    PaymentContext)
    ensures
        copy == *context,
;

/// `lightning_types::payment::PaymentSecret`.
#[verifier::external_type_specification]
#[verifier::external_body]
pub struct ExPaymentSecret(PaymentSecret);

/// `lightning::sign::ReceiveAuthKey`: the key that authenticates the recipient's own paths.
#[verifier::external_type_specification]
#[verifier::external_body]
pub struct ExReceiveAuthKey(ReceiveAuthKey);

/// `lightning::ln::channel_state::ChannelDetails`.
#[verifier::external_type_specification]
#[verifier::external_body]
pub struct ExChannelDetails(ChannelDetails);

/// `lightning::sign::KeysManager`: the source of entropy.
#[verifier::external_type_specification]
#[verifier::external_body]
pub struct ExKeysManager(KeysManager);

/// `lightning::blinded_path::BlindedHop`: a blinded node id and an encrypted payload.
#[verifier::external_type_specification]
#[verifier::external_body]
pub struct ExBlindedHop(BlindedHop);

/// `lightning::blinded_path::payment::BlindedPaymentPath`.
#[verifier::external_type_specification]
#[verifier::external_body]
pub struct ExBlindedPaymentPath(BlindedPaymentPath);

/// The value of `lightning::ln::channelmanager::MIN_FINAL_CLTV_EXPIRY_DELTA`.
pub open spec fn min_final_cltv_expiry_delta() -> u16 {
    42
}

/// Reads `lightning::ln::channelmanager::MIN_FINAL_CLTV_EXPIRY_DELTA`.
///
/// The constant is three blocks more than `HTLC_FAIL_BACK_BUFFER`, which is twice the eighteen
/// blocks of `MAX_BLOCKS_FOR_CONF` and the three blocks of `LATENCY_GRACE_PERIOD_BLOCKS`.
#[verifier::external_body]
pub(crate) fn final_cltv_expiry_delta() -> (delta: u16)
    ensures
        delta == min_final_cltv_expiry_delta(),
{
    MIN_FINAL_CLTV_EXPIRY_DELTA
}

/// Calls `lightning_types::features::BlindedHopFeatures::empty`, and takes the flags of what it
/// returns: there are none.
#[verifier::external_body]
pub(crate) fn empty_features() -> (flags: Vec<u8>)
    ensures
        flags@ == Seq::<u8>::empty(),
{
    BlindedHopFeatures::empty().le_flags().to_vec()
}

/// Calls `lightning::blinded_path::payment::BlindedPaymentPath::new` for the path along `nodes` to
/// `payee`, and keeps what that path asks of a payer.
///
/// The constructor computes this from the relays' fees, expiry deltas, bounds and features, from
/// the recipient's minimum, and from its own two numbers. It is the same computation whether a
/// relay forwards over a channel or to a trampoline, so the channel is left blank; the path itself
/// is dropped, and with it what came of `entropy`. Over relays that charge nothing, ask for no
/// feature and otherwise ask the same, the result is `aggregated`; the constructor fails where that
/// is `None`.
///
/// In a build with debug assertions the constructor panics where payloads differ in size, so relays
/// that do not ask the same, or that continue with another blinding point, are left out. It also
/// panics where a scalar that it derives from the entropy or by hashing is zero or not below the
/// order of the curve; no argument for which this happens is known.
#[verifier::external_body]
pub(crate) fn aggregate_payinfo(
    nodes: &Vec<ForwardNode>,
    payee: PublicKey,
    receive_key: ReceiveAuthKey,
    tlvs: ReceiveTlvs,
    payee_maximum_msat: u64,
    min_final_cltv_expiry_delta: u16,
    entropy: [u8; 32],
) -> (r: Result<BlindedPayInfo, ()>)
    requires
        forall|i: int|
            0 <= i < nodes@.len() ==> crate::payload::is_free(#[trigger] nodes@[i]@)
                && crate::payload::ask_alike(nodes@[i]@, nodes@[0]@)
                && nodes@[i]@.next_blinding_override is None,
    ensures
        match crate::payload::aggregated(
            nodes@.len(),
            nodes@[0]@,
            tlvs.htlc_minimum_msat,
            payee_maximum_msat,
            min_final_cltv_expiry_delta,
        ) {
            Some(info) => r is Ok && r->Ok_0@ == info,
            None => r is Err,
        },
{
    let LdkPayInfo { fee_base_msat, fee_proportional_millionths, cltv_expiry_delta, htlc_minimum_msat,
        htlc_maximum_msat, features } = BlindedPaymentPath::new(&Vec::from_iter(nodes.iter().map(|&ForwardNode {
            node_id, cltv_expiry_delta, fee_proportional_millionths, fee_base_msat, max_cltv_expiry, htlc_minimum_msat,
            ref features, next_blinding_override, htlc_maximum_msat, .. }| LdkForwardNode { node_id, htlc_maximum_msat,
                tlvs: LdkForwardTlvs { short_channel_id: 0, next_blinding_override,
                    payment_relay: LdkRelay { cltv_expiry_delta, fee_proportional_millionths, fee_base_msat },
                    payment_constraints: LdkConstraints { max_cltv_expiry, htlc_minimum_msat },
                    features: BlindedHopFeatures::from_le_bytes(features.clone()) } })), payee, receive_key,
        LdkReceiveTlvs { payment_secret: tlvs.payment_secret, payment_context: tlvs.payment_context,
            payment_constraints: LdkConstraints { max_cltv_expiry: tlvs.max_cltv_expiry,
                htlc_minimum_msat: tlvs.htlc_minimum_msat } },
        payee_maximum_msat, min_final_cltv_expiry_delta, RandomBytes::new(entropy), &Secp256k1::new())?.payinfo;
    Ok(BlindedPayInfo { fee_base_msat, fee_proportional_millionths, cltv_expiry_delta, htlc_minimum_msat,
        htlc_maximum_msat, features: features.le_flags().to_vec() })
}

/// The bytes that `entropy_source` hands out when it is drawn on after `draw` draws.
pub uninterp spec fn drawn_bytes(entropy_source: KeysManager, draw: u64) -> Seq<u8>;

/// Calls `lightning::sign::EntropySource::get_secure_random_bytes` of
/// `lightning::sign::KeysManager`.
///
/// The bytes follow from the seed and the starting time that the source was made with, and from how
/// often it was drawn on before. How often that was, and that the source counts this draw, is left
/// unsaid: it keeps the count to itself.
#[verifier::external_body]
pub(crate) fn draw_bytes(entropy_source: &KeysManager) -> (bytes: [u8; 32])
    ensures
        exists|draw: u64| bytes@ == #[trigger] drawn_bytes(*entropy_source, draw),
{
    entropy_source.get_secure_random_bytes()
}

/// The blinding point and the blinded hops of the path that `lightning` builds for a trampoline
/// payment along `hops` to `payee`, with the bytes that `entropy_source` hands out when it is drawn
/// on after `draw` draws.
pub uninterp spec fn blinded_trampoline_hops(
    hops: Seq<Hop>,
    payee: PublicKey,
    receive_key: ReceiveAuthKey,
    payment_secret: PaymentSecret,
    max_cltv_expiry: u32,
    htlc_minimum_msat: u64,
    payment_context: PaymentContext,
    entropy_source: KeysManager,
    draw: u64,
) -> (PublicKey, Seq<BlindedHop>);

/// Calls `lightning::ln::functional_test_utils::create_trampoline_forward_blinded_tail`, the one
/// public door to `lightning`'s constructor of trampoline paths, and keeps the blinding point and
/// the hops of the path that this constructor built.
///
/// Both follow from the arguments and from the bytes that `entropy_source` hands out. These follow
/// in turn from the seed and the starting time that the source was made with, and from how often it
/// was drawn on before; how often that was is left unsaid. There is one hop for each relay, and one
/// for the recipient. The call panics where the path asks the impossible of a payer, and in a build
/// with debug assertions where payloads differ in size, so relays that do not ask the same are left
/// out. It also panics where a scalar that it derives from the entropy or by hashing is zero or not
/// below the order of the curve; no argument for which this happens is known.
#[verifier::external_body]
pub(crate) fn build_trampoline_hops(
    nodes: &Vec<ForwardNode>,
    payee: PublicKey,
    receive_key: ReceiveAuthKey,
    tlvs: ReceiveTlvs,
    min_final_cltv_expiry_delta: u16,
    entropy_source: &KeysManager,
) -> (r: (PublicKey, Vec<BlindedHop>))
    requires
        forall|i: int|
            0 <= i < nodes@.len() ==> crate::payload::is_free(#[trigger] nodes@[i]@)
                && crate::payload::ask_alike(nodes@[i]@, nodes@[0]@),
        crate::payload::aggregated(
            nodes@.len(),
            nodes@[0]@,
            tlvs.htlc_minimum_msat,
            u64::MAX,
            min_final_cltv_expiry_delta,
        ) is Some,
    ensures
        r.1@.len() == nodes@.len() + 1,
        exists|draw: u64|
            (r.0, r.1@) == #[trigger] blinded_trampoline_hops(
                crate::payload::hops(nodes@),
                payee,
                receive_key,
                tlvs.payment_secret,
                tlvs.max_cltv_expiry,
                tlvs.htlc_minimum_msat,
                tlvs.payment_context,
                *entropy_source,
                draw,
            ),
{
    let relays: Vec<_> = nodes.iter().map(|&ForwardNode { node_id, next_trampoline, cltv_expiry_delta, fee_base_msat,
        fee_proportional_millionths, max_cltv_expiry, htlc_minimum_msat, ref features, next_blinding_override,
        htlc_maximum_msat }| LdkForwardNode { node_id, htlc_maximum_msat, tlvs: LdkTrampolineTlvs { next_trampoline,
            payment_relay: LdkRelay { cltv_expiry_delta, fee_proportional_millionths, fee_base_msat },
            payment_constraints: LdkConstraints { max_cltv_expiry, htlc_minimum_msat },
            features: BlindedHopFeatures::from_le_bytes(features.clone()), next_blinding_override } }).collect();
    let payee_tlvs = LdkReceiveTlvs { payment_secret: tlvs.payment_secret, payment_context: tlvs.payment_context,
        payment_constraints: LdkConstraints { max_cltv_expiry: tlvs.max_cltv_expiry,
            htlc_minimum_msat: tlvs.htlc_minimum_msat } };
    let tail = create_trampoline_forward_blinded_tail(&Secp256k1::new(), entropy_source, &relays, payee, receive_key,
        payee_tlvs, min_final_cltv_expiry_delta as u32, 0, 0);
    (tail.blinding_point, tail.hops)
}

/// The path that `lightning` puts together from these parts.
pub uninterp spec fn assembled_path(
    introduction_node_id: PublicKey,
    blinding_point: PublicKey,
    blinded_hops: Seq<BlindedHop>,
    payinfo: PayInfo,
) -> BlindedPaymentPath;

/// Calls `lightning::blinded_path::payment::BlindedPaymentPath::from_blinded_path_and_payinfo`.
///
/// The path that comes back consists of the parts and of nothing else.
#[verifier::external_body]
pub(crate) fn assemble_path(parts: BlindedPathParts) -> (path: BlindedPaymentPath)
    ensures
        path == assembled_path(
            parts.introduction_node_id,
            parts.blinding_point,
            parts.blinded_hops@,
            parts.payinfo@,
        ),
{
    let BlindedPayInfo { fee_base_msat, fee_proportional_millionths, cltv_expiry_delta, htlc_minimum_msat,
        htlc_maximum_msat, features } = parts.payinfo;
    BlindedPaymentPath::from_blinded_path_and_payinfo(parts.introduction_node_id, parts.blinding_point,
        parts.blinded_hops, LdkPayInfo { fee_base_msat, fee_proportional_millionths, cltv_expiry_delta,
            htlc_minimum_msat, htlc_maximum_msat, features: BlindedHopFeatures::from_le_bytes(features) })
}

} // verus!
