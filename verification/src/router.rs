//! The router: it hands a request for blinded payment paths on, unless a trampoline path has been
//! configured; then it builds that one.

use bitcoin::secp256k1::PublicKey;
use lightning::blinded_path::payment::BlindedPaymentPath;
use lightning::blinded_path::BlindedHop;
use lightning::ln::channel_state::ChannelDetails;
use lightning::sign::{KeysManager, ReceiveAuthKey};
use std::sync::Arc;
use vstd::prelude::*;

use crate::ldk::{
    aggregate_payinfo, assemble_path, build_trampoline_hops, draw_bytes, empty_features,
    final_cltv_expiry_delta,
};
use crate::payload::{
    BlindedPathParts, BlindedPayInfo, ForwardNode, Hop, PayInfo, ReceiveTlvs, TOTAL_SUPPLY_MSAT,
};

verus! {

/// The expiry delta of every relay of a trampoline path.
///
/// It has to agree with the delta that is configured on the channels over which the path runs.
/// Where it does not, a path is still built, and payments over it fail on their way.
pub const TRAMPOLINE_HOP_CLTV_EXPIRY_DELTA: u16 = 144;

/// The most that the recipient accepts: there is no limit.
pub const PAYEE_HTLC_MAXIMUM_MSAT: u64 = u64::MAX;

/// The most that a relay accepts: the amount asked for, or anything where none is.
pub open spec fn relay_maximum(amount_msats: Option<u64>) -> u64 {
    match amount_msats {
        Some(amount) => amount,
        None => u64::MAX,
    }
}

/// The relay at `i` on the way along `nodes` to `recipient`.
///
/// It forwards to the next node, and the last one to the recipient. It takes no fee and has no
/// minimum, and it lets a payment expire when the recipient does.
pub open spec fn trampoline_hop(
    nodes: Seq<PublicKey>,
    recipient: PublicKey,
    max_cltv_expiry: u32,
    amount_msats: Option<u64>,
    i: int,
) -> Hop {
    Hop {
        node_id: nodes[i],
        next_trampoline: if i + 1 < nodes.len() {
            nodes[i + 1]
        } else {
            recipient
        },
        cltv_expiry_delta: TRAMPOLINE_HOP_CLTV_EXPIRY_DELTA,
        fee_proportional_millionths: 0,
        fee_base_msat: 0,
        max_cltv_expiry,
        htlc_minimum_msat: 0,
        features: Seq::empty(),
        next_blinding_override: None,
        htlc_maximum_msat: relay_maximum(amount_msats),
    }
}

/// The relays on the way along `nodes` to `recipient`, in order.
pub open spec fn trampoline_hops(
    nodes: Seq<PublicKey>,
    recipient: PublicKey,
    max_cltv_expiry: u32,
    amount_msats: Option<u64>,
) -> Seq<Hop> {
    Seq::new(
        nodes.len(),
        |i: int| trampoline_hop(nodes, recipient, max_cltv_expiry, amount_msats, i),
    )
}

/// What a trampoline path over `count` relays asks of a payer, where there is one.
pub open spec fn trampoline_pay_info(
    count: nat,
    payee_minimum_msat: u64,
    amount_msats: Option<u64>,
) -> Option<PayInfo> {
    let cltv = crate::ldk::min_final_cltv_expiry_delta() + count * TRAMPOLINE_HOP_CLTV_EXPIRY_DELTA;
    let least = crate::payload::greater(payee_minimum_msat, 1);
    let most = if count == 0 {
        TOTAL_SUPPLY_MSAT
    } else {
        crate::payload::lesser(relay_maximum(amount_msats), TOTAL_SUPPLY_MSAT)
    };
    if cltv <= u16::MAX && least <= most {
        Some(
            PayInfo {
                fee_base_msat: 0,
                fee_proportional_millionths: 0,
                cltv_expiry_delta: cltv as u16,
                htlc_minimum_msat: least,
                htlc_maximum_msat: most,
                features: Seq::empty(),
            },
        )
    } else {
        None
    }
}

/// The node that a payer is told of: the first of the path, or the recipient itself.
pub open spec fn introduction_node(nodes: Seq<PublicKey>, recipient: PublicKey) -> PublicKey {
    if nodes.len() == 0 {
        recipient
    } else {
        nodes[0]
    }
}

/// The blinding point and the encrypted hops of the trampoline path along `nodes` to `recipient`.
pub open spec fn blinding(
    nodes: Seq<PublicKey>,
    recipient: PublicKey,
    receive_key: ReceiveAuthKey,
    tlvs: ReceiveTlvs,
    amount_msats: Option<u64>,
    entropy_source: KeysManager,
    draw: u64,
) -> (PublicKey, Seq<BlindedHop>) {
    crate::ldk::blinded_trampoline_hops(
        trampoline_hops(nodes, recipient, tlvs.max_cltv_expiry, amount_msats),
        recipient,
        receive_key,
        tlvs.payment_secret,
        tlvs.max_cltv_expiry,
        tlvs.htlc_minimum_msat,
        tlvs.payment_context,
        entropy_source,
        draw,
    )
}

/// Whether `path` is the trampoline path along `nodes` to `recipient` that asks `info` of a payer,
/// blinded with what `entropy_source` hands out at `draw`.
pub open spec fn is_trampoline_path(
    path: BlindedPaymentPath,
    nodes: Seq<PublicKey>,
    recipient: PublicKey,
    receive_key: ReceiveAuthKey,
    tlvs: ReceiveTlvs,
    amount_msats: Option<u64>,
    info: PayInfo,
    entropy_source: KeysManager,
    draw: u64,
) -> bool {
    let (blinding_point, blinded_hops) = blinding(
        nodes,
        recipient,
        receive_key,
        tlvs,
        amount_msats,
        entropy_source,
        draw,
    );
    &&& blinded_hops.len() == nodes.len() + 1
    &&& path == crate::ldk::assembled_path(
        introduction_node(nodes, recipient),
        blinding_point,
        blinded_hops,
        info,
    )
}

/// Relays that ask what those of a trampoline path ask add up to what the path asks of a payer.
proof fn lemma_aggregated(
    count: nat,
    relay: Hop,
    payee_minimum_msat: u64,
    amount_msats: Option<u64>,
)
    requires
        count > 0 ==> {
            &&& relay.cltv_expiry_delta == TRAMPOLINE_HOP_CLTV_EXPIRY_DELTA
            &&& relay.htlc_minimum_msat == 0
            &&& relay.htlc_maximum_msat == relay_maximum(amount_msats)
        },
    ensures
        crate::payload::aggregated(
            count,
            relay,
            payee_minimum_msat,
            PAYEE_HTLC_MAXIMUM_MSAT,
            crate::ldk::min_final_cltv_expiry_delta(),
        ) == trampoline_pay_info(count, payee_minimum_msat, amount_msats),
{
    if count == 0 {
        assert(count * relay.cltv_expiry_delta == 0) by (nonlinear_arith)
            requires
                count == 0,
        ;
    }
}

/// A relay that forwards to `next_trampoline`.
fn forward_node(
    node_id: PublicKey,
    next_trampoline: PublicKey,
    max_cltv_expiry: u32,
    htlc_maximum_msat: u64,
) -> (node: ForwardNode)
    ensures
        node@ == (Hop {
            node_id,
            next_trampoline,
            cltv_expiry_delta: TRAMPOLINE_HOP_CLTV_EXPIRY_DELTA,
            fee_proportional_millionths: 0,
            fee_base_msat: 0,
            max_cltv_expiry,
            htlc_minimum_msat: 0,
            features: Seq::empty(),
            next_blinding_override: None,
            htlc_maximum_msat,
        }),
{
    ForwardNode {
        node_id,
        next_trampoline,
        cltv_expiry_delta: TRAMPOLINE_HOP_CLTV_EXPIRY_DELTA,
        fee_proportional_millionths: 0,
        fee_base_msat: 0,
        max_cltv_expiry,
        htlc_minimum_msat: 0,
        features: empty_features(),
        next_blinding_override: None,
        htlc_maximum_msat,
    }
}

/// The relays on the way along `nodes` to `recipient`, in order.
pub fn trampoline_forward_nodes(
    nodes: &Vec<PublicKey>,
    recipient: PublicKey,
    max_cltv_expiry: u32,
    amount_msats: Option<u64>,
) -> (forward_nodes: Vec<ForwardNode>)
    ensures
        crate::payload::hops(forward_nodes@) == trampoline_hops(
            nodes@,
            recipient,
            max_cltv_expiry,
            amount_msats,
        ),
{
    let htlc_maximum_msat: u64 = amount_msats.unwrap_or(u64::MAX);
    let mut forward_nodes: Vec<ForwardNode> = Vec::new();
    let mut i: usize = 0;
    while i < nodes.len()
        invariant
            i <= nodes@.len(),
            forward_nodes@.len() == i,
            htlc_maximum_msat == relay_maximum(amount_msats),
            forall|j: int|
                0 <= j < i ==> (#[trigger] forward_nodes@[j])@ == trampoline_hop(
                    nodes@,
                    recipient,
                    max_cltv_expiry,
                    amount_msats,
                    j,
                ),
        decreases nodes@.len() - i,
    {
        let next_trampoline = if i + 1 < nodes.len() {
            nodes[i + 1]
        } else {
            recipient
        };
        forward_nodes.push(
            forward_node(nodes[i], next_trampoline, max_cltv_expiry, htlc_maximum_msat),
        );
        i += 1;
    }
    assert(crate::payload::hops(forward_nodes@) =~= trampoline_hops(
        nodes@,
        recipient,
        max_cltv_expiry,
        amount_msats,
    ));
    forward_nodes
}

/// The trampoline path along `nodes` to `recipient`, from what came of blinding it.
pub fn trampoline_path_parts(
    nodes: &Vec<PublicKey>,
    recipient: PublicKey,
    blinding_point: PublicKey,
    blinded_hops: Vec<BlindedHop>,
    payinfo: BlindedPayInfo,
) -> (parts: BlindedPathParts)
    ensures
        parts.introduction_node_id == introduction_node(nodes@, recipient),
        parts.blinding_point == blinding_point,
        parts.blinded_hops == blinded_hops,
        parts.payinfo == payinfo,
{
    let introduction_node_id = if nodes.len() == 0 {
        recipient
    } else {
        nodes[0]
    };
    BlindedPathParts { introduction_node_id, blinding_point, blinded_hops, payinfo }
}

/// Builds the trampoline path along `nodes` to `recipient`.
///
/// It fails where there is nothing that such a path could ask of a payer, and nowhere else. Either
/// way it draws on `entropy_source` once.
pub fn trampoline_payment_path(
    nodes: &Vec<PublicKey>,
    recipient: PublicKey,
    receive_key: ReceiveAuthKey,
    tlvs: ReceiveTlvs,
    amount_msats: Option<u64>,
    entropy_source: &KeysManager,
) -> (r: Result<BlindedPaymentPath, ()>)
    ensures
        match trampoline_pay_info(nodes@.len(), tlvs.htlc_minimum_msat, amount_msats) {
            Some(info) => r is Ok && exists|draw: u64|
                #[trigger] is_trampoline_path(
                    r->Ok_0,
                    nodes@,
                    recipient,
                    receive_key,
                    tlvs,
                    amount_msats,
                    info,
                    *entropy_source,
                    draw,
                ),
            None => r is Err,
        },
{
    let forward_nodes = trampoline_forward_nodes(
        nodes,
        recipient,
        tlvs.max_cltv_expiry,
        amount_msats,
    );
    let ghost info = trampoline_pay_info(nodes@.len(), tlvs.htlc_minimum_msat, amount_msats)->0;
    let ghost hops = trampoline_hops(nodes@, recipient, tlvs.max_cltv_expiry, amount_msats);
    assert(forward_nodes@.len() == nodes@.len()) by {
        assert(crate::payload::hops(forward_nodes@).len() == hops.len());
    }
    assert forall|i: int| 0 <= i < forward_nodes@.len() implies crate::payload::is_free(
        #[trigger] forward_nodes@[i]@,
    ) && crate::payload::ask_alike(forward_nodes@[i]@, forward_nodes@[0]@)
        && forward_nodes@[i]@.next_blinding_override is None by {
        assert(crate::payload::hops(forward_nodes@)[i] == hops[i]);
        assert(crate::payload::hops(forward_nodes@)[0] == hops[0]);
    }
    proof {
        if nodes@.len() > 0 {
            assert(crate::payload::hops(forward_nodes@)[0] == hops[0]);
        }
        lemma_aggregated(
            nodes@.len(),
            forward_nodes@[0]@,
            tlvs.htlc_minimum_msat,
            amount_msats,
        );
    }
    // Only the payment info is kept of this path, so it is blinded with nothing secret.
    let payinfo = match aggregate_payinfo(
        &forward_nodes,
        recipient,
        receive_key,
        tlvs.clone(),
        PAYEE_HTLC_MAXIMUM_MSAT,
        final_cltv_expiry_delta(),
        [0u8; 32],
    ) {
        Ok(payinfo) => payinfo,
        Err(()) => {
            // Entropy is drawn for every path, for one that is refused as well.
            let _ = draw_bytes(entropy_source);
            return Err(());
        },
    };
    let (blinding_point, blinded_hops) = build_trampoline_hops(
        &forward_nodes,
        recipient,
        receive_key,
        tlvs,
        final_cltv_expiry_delta(),
        entropy_source,
    );
    let ghost draw = choose|draw: u64|
        (blinding_point, blinded_hops@) == #[trigger] crate::ldk::blinded_trampoline_hops(
            hops,
            recipient,
            receive_key,
            tlvs.payment_secret,
            tlvs.max_cltv_expiry,
            tlvs.htlc_minimum_msat,
            tlvs.payment_context,
            *entropy_source,
            draw,
        );
    let path = assemble_path(
        trampoline_path_parts(nodes, recipient, blinding_point, blinded_hops, payinfo),
    );
    let result: Result<BlindedPaymentPath, ()> = Ok(path);
    assert(is_trampoline_path(
        result->Ok_0,
        nodes@,
        recipient,
        receive_key,
        tlvs,
        amount_msats,
        info,
        *entropy_source,
        draw,
    ));
    result
}

/// A router of payments that can be told to receive over one trampoline path.
///
/// It hands every request on to another router, but for one: once a trampoline path is configured,
/// that path alone is what it offers for receiving a payment.
pub struct TrampolineAwareRouter {
    entropy_source: Arc<KeysManager>,
    trampoline_path: Option<Vec<PublicKey>>,
}

/// What is configured: the nodes of the trampoline path, if there is one.
impl View for TrampolineAwareRouter {
    type V = Option<Seq<PublicKey>>;

    closed spec fn view(&self) -> Option<Seq<PublicKey>> {
        match self.trampoline_path {
            Some(nodes) => Some(nodes@),
            None => None,
        }
    }
}

impl TrampolineAwareRouter {
    /// Where the router has its entropy from.
    pub closed spec fn entropy_source(&self) -> Arc<KeysManager> {
        self.entropy_source
    }

    /// A router with no trampoline path.
    pub fn new(entropy_source: Arc<KeysManager>) -> (router: Self)
        ensures
            router@ is None,
            router.entropy_source() == entropy_source,
    {
        TrampolineAwareRouter { entropy_source, trampoline_path: None }
    }

    /// Sets or clears the nodes of the trampoline path over which payments are received from now
    /// on.
    ///
    /// The introduction node comes first, then each relay in turn. The last of them forwards to
    /// the recipient.
    pub fn set_trampoline_path(&mut self, nodes: Option<Vec<PublicKey>>)
        ensures
            final(self)@ == (match nodes {
                Some(nodes) => Some(nodes@),
                None => None,
            }),
            final(self).entropy_source() == old(self).entropy_source(),
    {
        self.trampoline_path = nodes;
    }

    /// The paths over which `recipient` can be paid.
    ///
    /// With no trampoline path configured, this is what `delegate` makes of the same arguments.
    /// Otherwise it is the configured trampoline path and no other, and the router's entropy source
    /// is drawn on once, whether there is such a path or not.
    pub fn create_blinded_payment_paths<D>(
        &self,
        recipient: PublicKey,
        local_node_receive_key: ReceiveAuthKey,
        first_hops: Vec<ChannelDetails>,
        tlvs: ReceiveTlvs,
        amount_msats: Option<u64>,
        delegate: D,
    ) -> (paths: Result<Vec<BlindedPaymentPath>, ()>) where
        D: FnOnce(
            PublicKey,
            ReceiveAuthKey,
            Vec<ChannelDetails>,
            ReceiveTlvs,
            Option<u64>,
        ) -> Result<Vec<BlindedPaymentPath>, ()>,

        requires
            self@ is None ==> delegate.requires(
                (recipient, local_node_receive_key, first_hops, tlvs, amount_msats),
            ),
        ensures
            match self@ {
                None => delegate.ensures(
                    (recipient, local_node_receive_key, first_hops, tlvs, amount_msats),
                    paths,
                ),
                Some(nodes) => match trampoline_pay_info(
                    nodes.len(),
                    tlvs.htlc_minimum_msat,
                    amount_msats,
                ) {
                    Some(info) => paths is Ok && paths->Ok_0@.len() == 1 && exists|draw: u64|
                        #[trigger] is_trampoline_path(
                            paths->Ok_0@[0],
                            nodes,
                            recipient,
                            local_node_receive_key,
                            tlvs,
                            amount_msats,
                            info,
                            *self.entropy_source(),
                            draw,
                        ),
                    None => paths is Err,
                },
            },
    {
        match &self.trampoline_path {
            None => delegate(recipient, local_node_receive_key, first_hops, tlvs, amount_msats),
            Some(nodes) => {
                let path = trampoline_payment_path(
                    nodes,
                    recipient,
                    local_node_receive_key,
                    tlvs,
                    amount_msats,
                    &self.entropy_source,
                );
                match path {
                    Ok(path) => {
                        let ghost info = trampoline_pay_info(
                            nodes@.len(),
                            tlvs.htlc_minimum_msat,
                            amount_msats,
                        )->0;
                        let ghost draw = choose|draw: u64|
                            #[trigger] is_trampoline_path(
                                path,
                                nodes@,
                                recipient,
                                local_node_receive_key,
                                tlvs,
                                amount_msats,
                                info,
                                *self.entropy_source(),
                                draw,
                            );
                        let mut paths: Vec<BlindedPaymentPath> = Vec::new();
                        paths.push(path);
                        let result: Result<Vec<BlindedPaymentPath>, ()> = Ok(paths);
                        assert(is_trampoline_path(
                            result->Ok_0@[0],
                            nodes@,
                            recipient,
                            local_node_receive_key,
                            tlvs,
                            amount_msats,
                            info,
                            *self.entropy_source(),
                            draw,
                        ));
                        result
                    },
                    Err(()) => Err(()),
                }
            },
        }
    }
}

impl Clone for TrampolineAwareRouter {
    /// A router that is configured alike and draws on the same entropy.
    fn clone(&self) -> (router: Self)
        ensures
            router@ == self@,
            router.entropy_source() == self.entropy_source(),
    {
        let trampoline_path = match &self.trampoline_path {
            None => None,
            Some(nodes) => {
                let mut copy: Vec<PublicKey> = Vec::new();
                let mut i: usize = 0;
                while i < nodes.len()
                    invariant
                        i <= nodes@.len(),
                        copy@ == nodes@.take(i as int),
                    decreases nodes@.len() - i,
                {
                    copy.push(nodes[i]);
                    i += 1;
                }
                assert(nodes@.take(nodes@.len() as int) == nodes@);
                Some(copy)
            },
        };
        TrampolineAwareRouter { entropy_source: self.entropy_source.clone(), trampoline_path }
    }
}

} // verus!
