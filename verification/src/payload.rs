//! What a blinded trampoline path carries: the parameters of each relay, the
//! parameters of the recipient, and what the path as a whole asks of a payer.

use bitcoin::secp256k1::PublicKey;
use lightning::blinded_path::payment::PaymentContext;
use lightning::blinded_path::BlindedHop;
use lightning_types::payment::PaymentSecret;
use vstd::prelude::*;

verus! {

/// A trampoline relay: who it is, and what its payload tells it.
#[derive(Debug)]
pub struct ForwardNode {
    /// The relay's public key.
    pub node_id: PublicKey,
    /// The node to which the relay has to find a route.
    pub next_trampoline: PublicKey,
    /// Blocks that the relay takes off an incoming HTLC's expiry.
    pub cltv_expiry_delta: u16,
    /// The relay's fee, in millionths of the amount passed on.
    pub fee_proportional_millionths: u32,
    /// The relay's flat fee, in millisatoshi.
    pub fee_base_msat: u32,
    /// The latest expiry height that the relay accepts.
    pub max_cltv_expiry: u32,
    /// The least value that the relay accepts, in millisatoshi.
    pub htlc_minimum_msat: u64,
    /// Feature flags of the hop, in little-endian byte order.
    pub features: Vec<u8>,
    /// The blinding point to continue with, where another path is appended.
    pub next_blinding_override: Option<PublicKey>,
    /// The greatest value that the relay accepts, in millisatoshi.
    pub htlc_maximum_msat: u64,
}

/// The payload of the recipient.
#[derive(Debug)]
pub struct ReceiveTlvs {
    /// Authenticates the payer and ties the parts of a payment together.
    pub payment_secret: PaymentSecret,
    /// The latest expiry height that the recipient accepts.
    pub max_cltv_expiry: u32,
    /// The least value that the recipient accepts, in millisatoshi.
    pub htlc_minimum_msat: u64,
    /// What the payment is for.
    pub payment_context: PaymentContext,
}

impl Clone for ReceiveTlvs {
    /// The same payload.
    fn clone(&self) -> (tlvs: Self)
        ensures
            tlvs == *self,
    {
        ReceiveTlvs {
            payment_secret: self.payment_secret,
            max_cltv_expiry: self.max_cltv_expiry,
            htlc_minimum_msat: self.htlc_minimum_msat,
            payment_context: self.payment_context.clone(),
        }
    }
}

/// What a payer has to know of a blinded path in order to pay over it.
#[derive(Debug)]
pub struct BlindedPayInfo {
    /// Flat fee of the whole path, in millisatoshi.
    pub fee_base_msat: u32,
    /// Fee of the whole path, in millionths of the amount.
    pub fee_proportional_millionths: u32,
    /// Blocks taken off an HTLC's expiry over the whole path.
    pub cltv_expiry_delta: u16,
    /// The least value that every hop accepts, in millisatoshi.
    pub htlc_minimum_msat: u64,
    /// The greatest value that every hop accepts, in millisatoshi.
    pub htlc_maximum_msat: u64,
    /// Feature flags of the path, in little-endian byte order.
    pub features: Vec<u8>,
}

/// A blinded path, taken apart.
#[derive(Debug)]
pub struct BlindedPathParts {
    /// The first node of the path, the only one that a payer gets to know.
    pub introduction_node_id: PublicKey,
    /// The key from which each hop finds its own payload's key.
    pub blinding_point: PublicKey,
    /// The encrypted hops, the recipient's last.
    pub blinded_hops: Vec<BlindedHop>,
    /// What the path asks of a payer.
    pub payinfo: BlindedPayInfo,
}

/// A relay as a mathematical value.
pub struct Hop {
    pub node_id: PublicKey,
    pub next_trampoline: PublicKey,
    pub cltv_expiry_delta: u16,
    pub fee_proportional_millionths: u32,
    pub fee_base_msat: u32,
    pub max_cltv_expiry: u32,
    pub htlc_minimum_msat: u64,
    pub features: Seq<u8>,
    pub next_blinding_override: Option<PublicKey>,
    pub htlc_maximum_msat: u64,
}

impl View for ForwardNode {
    type V = Hop;

    open spec fn view(&self) -> Hop {
        Hop {
            node_id: self.node_id,
            next_trampoline: self.next_trampoline,
            cltv_expiry_delta: self.cltv_expiry_delta,
            fee_proportional_millionths: self.fee_proportional_millionths,
            fee_base_msat: self.fee_base_msat,
            max_cltv_expiry: self.max_cltv_expiry,
            htlc_minimum_msat: self.htlc_minimum_msat,
            features: self.features@,
            next_blinding_override: self.next_blinding_override,
            htlc_maximum_msat: self.htlc_maximum_msat,
        }
    }
}

/// The relays of a path as mathematical values.
pub open spec fn hops(nodes: Seq<ForwardNode>) -> Seq<Hop> {
    Seq::new(nodes.len(), |i: int| nodes[i]@)
}

/// Whether a relay passes payments on for free and asks for no feature.
pub open spec fn is_free(hop: Hop) -> bool {
    &&& hop.fee_proportional_millionths == 0
    &&& hop.fee_base_msat == 0
    &&& hop.features.len() == 0
}

/// Whether two relays ask the same of a payment.
pub open spec fn ask_alike(a: Hop, b: Hop) -> bool {
    &&& a.cltv_expiry_delta == b.cltv_expiry_delta
    &&& a.fee_proportional_millionths == b.fee_proportional_millionths
    &&& a.fee_base_msat == b.fee_base_msat
    &&& a.max_cltv_expiry == b.max_cltv_expiry
    &&& a.htlc_minimum_msat == b.htlc_minimum_msat
    &&& a.features == b.features
    &&& a.htlc_maximum_msat == b.htlc_maximum_msat
}

/// What a path asks of a payer, as a mathematical value.
pub struct PayInfo {
    pub fee_base_msat: u32,
    pub fee_proportional_millionths: u32,
    pub cltv_expiry_delta: u16,
    pub htlc_minimum_msat: u64,
    pub htlc_maximum_msat: u64,
    pub features: Seq<u8>,
}

impl View for BlindedPayInfo {
    type V = PayInfo;

    open spec fn view(&self) -> PayInfo {
        PayInfo {
            fee_base_msat: self.fee_base_msat,
            fee_proportional_millionths: self.fee_proportional_millionths,
            cltv_expiry_delta: self.cltv_expiry_delta,
            htlc_minimum_msat: self.htlc_minimum_msat,
            htlc_maximum_msat: self.htlc_maximum_msat,
            features: self.features@,
        }
    }
}

/// The value of all bitcoin that will ever exist, in millisatoshi. No path promises to carry more.
pub const TOTAL_SUPPLY_MSAT: u64 = 2_100_000_000_000_000_000;

/// The greater of two amounts.
pub open spec fn greater(a: u64, b: u64) -> u64 {
    if a < b {
        b
    } else {
        a
    }
}

/// The lesser of two amounts.
pub open spec fn lesser(a: u64, b: u64) -> u64 {
    if a < b {
        a
    } else {
        b
    }
}

/// What a path over `count` free relays, each of which asks what `relay` asks, asks of a payer.
///
/// Expiry deltas add up. A value has to lie between the greatest of the minima and the least of
/// the maxima. There is no such path where the deltas overflow or where no value is left.
pub open spec fn aggregated(
    count: nat,
    relay: Hop,
    payee_minimum_msat: u64,
    payee_maximum_msat: u64,
    min_final_cltv_expiry_delta: u16,
) -> Option<PayInfo> {
    let cltv = min_final_cltv_expiry_delta + count * relay.cltv_expiry_delta;
    let payee_least = greater(payee_minimum_msat, 1);
    let payee_most = lesser(payee_maximum_msat, TOTAL_SUPPLY_MSAT);
    let least = if count == 0 {
        payee_least
    } else {
        greater(payee_least, relay.htlc_minimum_msat)
    };
    let most = if count == 0 {
        payee_most
    } else {
        lesser(payee_most, relay.htlc_maximum_msat)
    };
    if cltv > u16::MAX || most < least {
        None
    } else {
        Some(
            PayInfo {
                fee_base_msat: 0,
                fee_proportional_millionths: 0,
                cltv_expiry_delta: cltv as u16,
                htlc_minimum_msat: least,
                htlc_maximum_msat: most,
                features: Seq::empty(),
            },
        )
    }
}

} // verus!
