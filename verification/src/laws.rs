//! What holds of every trampoline path that the router builds.
//!
//! The laws that speak of a call take its arguments and what came of it, and assume of these what
//! `call_ensures` says. What they then say is spelled out over the arguments.

use bitcoin::secp256k1::PublicKey;
use lightning::blinded_path::payment::BlindedPaymentPath;
use lightning::blinded_path::BlindedHop;
use lightning::ln::channel_state::ChannelDetails;
use lightning::sign::{KeysManager, ReceiveAuthKey};
use std::sync::Arc;
use vstd::prelude::*;

use crate::payload::{
    BlindedPathParts, BlindedPayInfo, ForwardNode, Hop, PayInfo, ReceiveTlvs, TOTAL_SUPPLY_MSAT,
};
use crate::router::{
    trampoline_forward_nodes, trampoline_path_parts, trampoline_payment_path,
    TrampolineAwareRouter, TRAMPOLINE_HOP_CLTV_EXPIRY_DELTA,
};

verus! {

/// The greatest number of relays that a trampoline path can have.
pub const MAX_TRAMPOLINE_RELAYS: usize = 454;

/// The relays stand in the configured order, each forwards to the one that follows it, and the
/// last forwards to the recipient.
pub proof fn law_relays_form_a_chain(
    nodes: Seq<PublicKey>,
    recipient: PublicKey,
    max_cltv_expiry: u32,
    amount_msats: Option<u64>,
)
    ensures
        ({
            let hops = crate::router::trampoline_hops(
                nodes,
                recipient,
                max_cltv_expiry,
                amount_msats,
            );
            &&& hops.len() == nodes.len()
            &&& forall|i: int| 0 <= i < hops.len() ==> (#[trigger] hops[i]).node_id == nodes[i]
            &&& forall|i: int, j: int|
                0 <= i && j == i + 1 && j < hops.len() ==> (#[trigger] hops[i]).next_trampoline == (
                #[trigger] hops[j]).node_id
            &&& hops.len() > 0 ==> hops.last().next_trampoline == recipient
        }),
{
}

/// The introduction node is the first relay; without a relay it is the recipient.
pub proof fn law_introduction_node_comes_first(
    nodes: Seq<PublicKey>,
    recipient: PublicKey,
    max_cltv_expiry: u32,
    amount_msats: Option<u64>,
)
    ensures
        nodes.len() > 0 ==> crate::router::introduction_node(nodes, recipient)
            == crate::router::trampoline_hops(
            nodes,
            recipient,
            max_cltv_expiry,
            amount_msats,
        )[0].node_id,
        nodes.len() == 0 ==> crate::router::introduction_node(nodes, recipient) == recipient,
{
}

/// Every relay works for free, takes the one expiry delta, has no minimum, and lets a payment
/// expire when the recipient does.
pub proof fn law_relays_ask_alike(
    nodes: Seq<PublicKey>,
    recipient: PublicKey,
    max_cltv_expiry: u32,
    amount_msats: Option<u64>,
    i: int,
)
    requires
        0 <= i < nodes.len(),
    ensures
        ({
            let hop = crate::router::trampoline_hops(
                nodes,
                recipient,
                max_cltv_expiry,
                amount_msats,
            )[i];
            &&& crate::payload::is_free(hop)
            &&& hop.cltv_expiry_delta == TRAMPOLINE_HOP_CLTV_EXPIRY_DELTA
            &&& hop.htlc_minimum_msat == 0
            &&& hop.max_cltv_expiry == max_cltv_expiry
            &&& hop.next_blinding_override is None
        }),
{
}

/// Two configurations that lead to the same relays are the same, and so, with a relay to tell it,
/// is the recipient.
pub proof fn law_relays_determine_the_path(
    nodes: Seq<PublicKey>,
    recipient: PublicKey,
    other_nodes: Seq<PublicKey>,
    other_recipient: PublicKey,
    max_cltv_expiry: u32,
    amount_msats: Option<u64>,
)
    requires
        crate::router::trampoline_hops(nodes, recipient, max_cltv_expiry, amount_msats)
            == crate::router::trampoline_hops(
            other_nodes,
            other_recipient,
            max_cltv_expiry,
            amount_msats,
        ),
    ensures
        nodes == other_nodes,
        nodes.len() > 0 ==> recipient == other_recipient,
{
    let hops = crate::router::trampoline_hops(nodes, recipient, max_cltv_expiry, amount_msats);
    let other_hops = crate::router::trampoline_hops(
        other_nodes,
        other_recipient,
        max_cltv_expiry,
        amount_msats,
    );
    assert(hops.len() == nodes.len() && other_hops.len() == other_nodes.len());
    assert forall|i: int| 0 <= i < nodes.len() implies nodes[i] == other_nodes[i] by {
        assert(hops[i].node_id == other_hops[i].node_id);
    }
    assert(nodes =~= other_nodes);
    if nodes.len() > 0 {
        assert(hops.last().next_trampoline == other_hops.last().next_trampoline);
    }
}

/// A trampoline path follows from what was asked for and from what was drawn for it: there are no
/// two of them.
pub proof fn law_draw_determines_the_path(
    path: BlindedPaymentPath,
    other_path: BlindedPaymentPath,
    nodes: Seq<PublicKey>,
    recipient: PublicKey,
    receive_key: ReceiveAuthKey,
    tlvs: ReceiveTlvs,
    amount_msats: Option<u64>,
    info: PayInfo,
    entropy_source: KeysManager,
    draw: u64,
)
    requires
        crate::router::is_trampoline_path(
            path,
            nodes,
            recipient,
            receive_key,
            tlvs,
            amount_msats,
            info,
            entropy_source,
            draw,
        ),
        crate::router::is_trampoline_path(
            other_path,
            nodes,
            recipient,
            receive_key,
            tlvs,
            amount_msats,
            info,
            entropy_source,
            draw,
        ),
    ensures
        path == other_path,
{
}

/// Where there is a path, its fees are zero and its expiry delta is the recipient's own and that of
/// each relay. Its bounds leave a value, and they honour those of the recipient and of each relay.
pub proof fn law_payinfo_honours_every_hop(
    nodes: Seq<PublicKey>,
    recipient: PublicKey,
    max_cltv_expiry: u32,
    payee_minimum_msat: u64,
    amount_msats: Option<u64>,
)
    requires
        crate::router::trampoline_pay_info(nodes.len(), payee_minimum_msat, amount_msats) is Some,
    ensures
        ({
            let info: PayInfo = crate::router::trampoline_pay_info(
                nodes.len(),
                payee_minimum_msat,
                amount_msats,
            )->0;
            let hops = crate::router::trampoline_hops(
                nodes,
                recipient,
                max_cltv_expiry,
                amount_msats,
            );
            &&& info.fee_base_msat == 0
            &&& info.fee_proportional_millionths == 0
            &&& info.cltv_expiry_delta == crate::ldk::min_final_cltv_expiry_delta() + nodes.len()
                * TRAMPOLINE_HOP_CLTV_EXPIRY_DELTA
            &&& 1 <= info.htlc_minimum_msat <= info.htlc_maximum_msat <= TOTAL_SUPPLY_MSAT
            &&& payee_minimum_msat <= info.htlc_minimum_msat
            &&& forall|i: int|
                0 <= i < hops.len() ==> {
                    &&& (#[trigger] hops[i]).htlc_minimum_msat <= info.htlc_minimum_msat
                    &&& info.htlc_maximum_msat <= hops[i].htlc_maximum_msat
                }
        }),
{
}

/// A path is refused for its length exactly where it has more relays than the expiry delta of a
/// path can account for.
pub proof fn law_longest_path(count: nat, payee_minimum_msat: u64, amount_msats: Option<u64>)
    requires
        payee_minimum_msat <= TOTAL_SUPPLY_MSAT,
        count > 0 ==> (amount_msats matches Some(amount) ==> 1 <= amount && payee_minimum_msat
            <= amount),
    ensures
        crate::router::trampoline_pay_info(count, payee_minimum_msat, amount_msats) is Some <==> count
            <= MAX_TRAMPOLINE_RELAYS,
{
}

/// The amount that was asked for can be paid over the path.
pub proof fn law_amount_is_payable(count: nat, payee_minimum_msat: u64, amount: u64)
    requires
        count <= MAX_TRAMPOLINE_RELAYS,
        1 <= amount <= TOTAL_SUPPLY_MSAT,
        payee_minimum_msat <= amount,
    ensures
        crate::router::trampoline_pay_info(count, payee_minimum_msat, Some(amount)) matches Some(info)
            && info.htlc_minimum_msat <= amount <= info.htlc_maximum_msat,
{
}

/// With a relay on the way, nothing beyond the amount that was asked for can be paid over the path,
/// and an amount of zero, or one below the recipient's minimum, is refused.
pub proof fn law_amount_bounds_the_path(count: nat, payee_minimum_msat: u64, amount: u64)
    requires
        count > 0,
    ensures
        match crate::router::trampoline_pay_info(count, payee_minimum_msat, Some(amount)) {
            Some(info) => info.htlc_maximum_msat <= amount,
            None => true,
        },
        amount == 0 || amount < payee_minimum_msat ==> crate::router::trampoline_pay_info(
            count,
            payee_minimum_msat,
            Some(amount),
        ) is None,
{
}

/// A path that is built along `nodes` to `recipient` starts at the first of them, or at the
/// recipient where there is none. Its relays are these nodes, in this order: each is told to
/// forward to the one after it, and the last to the recipient. The recipient's own payload reaches the
/// recipient as it is. A payer is asked for no fee, for the blocks of every hop, and for a value
/// between the recipient's minimum and the amount that was asked for.
///
/// What the law returns is what the path was made of: its relays, what it asks of a payer, and the
/// draw that blinded it.
pub proof fn law_payment_path_is_the_one_asked_for(
    nodes: Vec<PublicKey>,
    recipient: PublicKey,
    receive_key: ReceiveAuthKey,
    tlvs: ReceiveTlvs,
    amount_msats: Option<u64>,
    entropy_source: KeysManager,
    path: BlindedPaymentPath,
) -> (made_of: (Seq<Hop>, PayInfo, u64))
    requires
        call_ensures(
            trampoline_payment_path,
            (&nodes, recipient, receive_key, tlvs, amount_msats, &entropy_source),
            Ok(path),
        ),
    ensures
        ({
            let (hops, info, draw) = made_of;
            let (blinding_point, blinded_hops) = crate::ldk::blinded_trampoline_hops(
                hops,
                recipient,
                receive_key,
                tlvs.payment_secret,
                tlvs.max_cltv_expiry,
                tlvs.htlc_minimum_msat,
                tlvs.payment_context,
                entropy_source,
                draw,
            );
            // Where the path starts, and what it carries.
            &&& path == crate::ldk::assembled_path(
                if nodes@.len() == 0 {
                    recipient
                } else {
                    nodes@[0]
                },
                blinding_point,
                blinded_hops,
                info,
            )
            &&& blinded_hops.len() == nodes@.len() + 1
            // What each relay is told.
            &&& hops.len() == nodes@.len()
            &&& forall|i: int|
                0 <= i < nodes@.len() ==> {
                    &&& (#[trigger] hops[i]).node_id == nodes@[i]
                    &&& i + 1 < nodes@.len() ==> hops[i].next_trampoline == nodes@[i + 1]
                    &&& i + 1 == nodes@.len() ==> hops[i].next_trampoline == recipient
                    &&& hops[i].cltv_expiry_delta == 144
                    &&& hops[i].fee_proportional_millionths == 0
                    &&& hops[i].fee_base_msat == 0
                    &&& hops[i].max_cltv_expiry == tlvs.max_cltv_expiry
                    &&& hops[i].htlc_minimum_msat == 0
                    &&& hops[i].features == Seq::<u8>::empty()
                    &&& hops[i].next_blinding_override is None
                    &&& amount_msats matches Some(amount) ==> hops[i].htlc_maximum_msat == amount
                    &&& amount_msats is None ==> hops[i].htlc_maximum_msat == u64::MAX
                }
            // What a payer is asked.
            &&& info.fee_base_msat == 0
            &&& info.fee_proportional_millionths == 0
            &&& info.cltv_expiry_delta == 42 + 144 * nodes@.len()
            &&& info.features == Seq::<u8>::empty()
            &&& tlvs.htlc_minimum_msat == 0 ==> info.htlc_minimum_msat == 1
            &&& tlvs.htlc_minimum_msat > 0 ==> info.htlc_minimum_msat == tlvs.htlc_minimum_msat
            &&& amount_msats matches Some(amount) ==> (nodes@.len() > 0 && amount
                <= 2_100_000_000_000_000_000 ==> info.htlc_maximum_msat == amount)
            &&& amount_msats matches Some(amount) ==> (nodes@.len() == 0 || amount
                > 2_100_000_000_000_000_000 ==> info.htlc_maximum_msat == 2_100_000_000_000_000_000)
            &&& amount_msats is None ==> info.htlc_maximum_msat == 2_100_000_000_000_000_000
        }),
{
    let hops = crate::router::trampoline_hops(
        nodes@,
        recipient,
        tlvs.max_cltv_expiry,
        amount_msats,
    );
    let info = crate::router::trampoline_pay_info(
        nodes@.len(),
        tlvs.htlc_minimum_msat,
        amount_msats,
    )->0;
    let result: Result<BlindedPaymentPath, ()> = Ok(path);
    let draw = choose|draw: u64|
        #[trigger] crate::router::is_trampoline_path(
            result->Ok_0,
            nodes@,
            recipient,
            receive_key,
            tlvs,
            amount_msats,
            info,
            entropy_source,
            draw,
        );
    (hops, info, draw)
}

/// A path is built exactly where the blocks of its hops can be counted, and where there is a value
/// that the recipient and every relay accept.
pub proof fn law_payment_path_is_built_where_payable(
    nodes: Vec<PublicKey>,
    recipient: PublicKey,
    receive_key: ReceiveAuthKey,
    tlvs: ReceiveTlvs,
    amount_msats: Option<u64>,
    entropy_source: KeysManager,
    result: Result<BlindedPaymentPath, ()>,
)
    requires
        call_ensures(
            trampoline_payment_path,
            (&nodes, recipient, receive_key, tlvs, amount_msats, &entropy_source),
            result,
        ),
    ensures
        result is Ok <==> {
            &&& 42 + 144 * nodes@.len() <= 65535
            &&& tlvs.htlc_minimum_msat <= 2_100_000_000_000_000_000
            &&& nodes@.len() > 0 ==> (amount_msats matches Some(amount) ==> 1 <= amount
                && tlvs.htlc_minimum_msat <= amount)
        },
{
}

/// A router on which `nodes` were set, whatever was set before, offers one path. That path starts
/// at the first of the nodes, or at the recipient where there is none. Its relays are these nodes,
/// in this order: each is told to forward to the one after it, and the last to the recipient. The
/// recipient's own payload reaches the recipient as it is. A payer is asked for no fee, for the
/// blocks of every hop, and for a value between the recipient's minimum and the amount that was
/// asked for.
///
/// What the law returns is what the path was made of: its relays, what it asks of a payer, and the
/// draw that blinded it.
pub proof fn law_configured_router_offers_the_path_asked_for<D>(
    before: TrampolineAwareRouter,
    nodes: Vec<PublicKey>,
    after: TrampolineAwareRouter,
    recipient: PublicKey,
    receive_key: ReceiveAuthKey,
    first_hops: Vec<ChannelDetails>,
    tlvs: ReceiveTlvs,
    amount_msats: Option<u64>,
    delegate: D,
    paths: Vec<BlindedPaymentPath>,
) -> (made_of: (Seq<Hop>, PayInfo, u64)) where
    D: FnOnce(
        PublicKey,
        ReceiveAuthKey,
        Vec<ChannelDetails>,
        ReceiveTlvs,
        Option<u64>,
    ) -> Result<Vec<BlindedPaymentPath>, ()>,

    requires
        exists|router: &mut TrampolineAwareRouter|
            {
                &&& #[trigger] call_ensures(
                    TrampolineAwareRouter::set_trampoline_path,
                    (router, Some(nodes)),
                    (),
                )
                &&& *router == before
                &&& *final(router) == after
            },
        call_ensures(
            TrampolineAwareRouter::create_blinded_payment_paths::<D>,
            (&after, recipient, receive_key, first_hops, tlvs, amount_msats, delegate),
            Ok(paths),
        ),
    ensures
        paths@.len() == 1,
        ({
            let (hops, info, draw) = made_of;
            let (blinding_point, blinded_hops) = crate::ldk::blinded_trampoline_hops(
                hops,
                recipient,
                receive_key,
                tlvs.payment_secret,
                tlvs.max_cltv_expiry,
                tlvs.htlc_minimum_msat,
                tlvs.payment_context,
                *before.entropy_source(),
                draw,
            );
            // Where the path starts, and what it carries.
            &&& paths@[0] == crate::ldk::assembled_path(
                if nodes@.len() == 0 {
                    recipient
                } else {
                    nodes@[0]
                },
                blinding_point,
                blinded_hops,
                info,
            )
            &&& blinded_hops.len() == nodes@.len() + 1
            // What each relay is told.
            &&& hops.len() == nodes@.len()
            &&& forall|i: int|
                0 <= i < nodes@.len() ==> {
                    &&& (#[trigger] hops[i]).node_id == nodes@[i]
                    &&& i + 1 < nodes@.len() ==> hops[i].next_trampoline == nodes@[i + 1]
                    &&& i + 1 == nodes@.len() ==> hops[i].next_trampoline == recipient
                    &&& hops[i].cltv_expiry_delta == 144
                    &&& hops[i].fee_proportional_millionths == 0
                    &&& hops[i].fee_base_msat == 0
                    &&& hops[i].max_cltv_expiry == tlvs.max_cltv_expiry
                    &&& hops[i].htlc_minimum_msat == 0
                    &&& hops[i].features == Seq::<u8>::empty()
                    &&& hops[i].next_blinding_override is None
                    &&& amount_msats matches Some(amount) ==> hops[i].htlc_maximum_msat == amount
                    &&& amount_msats is None ==> hops[i].htlc_maximum_msat == u64::MAX
                }
            // What a payer is asked.
            &&& info.fee_base_msat == 0
            &&& info.fee_proportional_millionths == 0
            &&& info.cltv_expiry_delta == 42 + 144 * nodes@.len()
            &&& info.features == Seq::<u8>::empty()
            &&& tlvs.htlc_minimum_msat == 0 ==> info.htlc_minimum_msat == 1
            &&& tlvs.htlc_minimum_msat > 0 ==> info.htlc_minimum_msat == tlvs.htlc_minimum_msat
            &&& amount_msats matches Some(amount) ==> (nodes@.len() > 0 && amount
                <= 2_100_000_000_000_000_000 ==> info.htlc_maximum_msat == amount)
            &&& amount_msats matches Some(amount) ==> (nodes@.len() == 0 || amount
                > 2_100_000_000_000_000_000 ==> info.htlc_maximum_msat == 2_100_000_000_000_000_000)
            &&& amount_msats is None ==> info.htlc_maximum_msat == 2_100_000_000_000_000_000
        }),
{
    let hops = crate::router::trampoline_hops(
        nodes@,
        recipient,
        tlvs.max_cltv_expiry,
        amount_msats,
    );
    let info = crate::router::trampoline_pay_info(
        nodes@.len(),
        tlvs.htlc_minimum_msat,
        amount_msats,
    )->0;
    let result: Result<Vec<BlindedPaymentPath>, ()> = Ok(paths);
    let draw = choose|draw: u64|
        #[trigger] crate::router::is_trampoline_path(
            result->Ok_0@[0],
            nodes@,
            recipient,
            receive_key,
            tlvs,
            amount_msats,
            info,
            *after.entropy_source(),
            draw,
        );
    (hops, info, draw)
}

/// A router on which `nodes` were set offers a path exactly where the blocks of its hops can be
/// counted, and where there is a value that the recipient and every relay accept.
pub proof fn law_configured_router_offers_a_path_where_payable<D>(
    before: TrampolineAwareRouter,
    nodes: Vec<PublicKey>,
    after: TrampolineAwareRouter,
    recipient: PublicKey,
    receive_key: ReceiveAuthKey,
    first_hops: Vec<ChannelDetails>,
    tlvs: ReceiveTlvs,
    amount_msats: Option<u64>,
    delegate: D,
    paths: Result<Vec<BlindedPaymentPath>, ()>,
) where
    D: FnOnce(
        PublicKey,
        ReceiveAuthKey,
        Vec<ChannelDetails>,
        ReceiveTlvs,
        Option<u64>,
    ) -> Result<Vec<BlindedPaymentPath>, ()>,

    requires
        exists|router: &mut TrampolineAwareRouter|
            {
                &&& #[trigger] call_ensures(
                    TrampolineAwareRouter::set_trampoline_path,
                    (router, Some(nodes)),
                    (),
                )
                &&& *router == before
                &&& *final(router) == after
            },
        call_ensures(
            TrampolineAwareRouter::create_blinded_payment_paths::<D>,
            (&after, recipient, receive_key, first_hops, tlvs, amount_msats, delegate),
            paths,
        ),
    ensures
        paths is Ok <==> {
            &&& 42 + 144 * nodes@.len() <= 65535
            &&& tlvs.htlc_minimum_msat <= 2_100_000_000_000_000_000
            &&& nodes@.len() > 0 ==> (amount_msats matches Some(amount) ==> 1 <= amount
                && tlvs.htlc_minimum_msat <= amount)
        },
{
}

/// A router on which nothing was set yet answers as the delegate does, and has its entropy from the
/// source that it was made with.
pub proof fn law_new_router_delegates<D>(
    entropy_source: Arc<KeysManager>,
    router: TrampolineAwareRouter,
    recipient: PublicKey,
    receive_key: ReceiveAuthKey,
    first_hops: Vec<ChannelDetails>,
    tlvs: ReceiveTlvs,
    amount_msats: Option<u64>,
    delegate: D,
    paths: Result<Vec<BlindedPaymentPath>, ()>,
) where
    D: FnOnce(
        PublicKey,
        ReceiveAuthKey,
        Vec<ChannelDetails>,
        ReceiveTlvs,
        Option<u64>,
    ) -> Result<Vec<BlindedPaymentPath>, ()>,

    requires
        call_ensures(TrampolineAwareRouter::new, (entropy_source,), router),
        call_ensures(
            TrampolineAwareRouter::create_blinded_payment_paths::<D>,
            (&router, recipient, receive_key, first_hops, tlvs, amount_msats, delegate),
            paths,
        ),
    ensures
        router.entropy_source() == entropy_source,
        delegate.ensures((recipient, receive_key, first_hops, tlvs, amount_msats), paths),
{
}

/// A router that was cleared, whatever was set before, answers as the delegate does.
pub proof fn law_cleared_router_delegates<D>(
    before: TrampolineAwareRouter,
    after: TrampolineAwareRouter,
    recipient: PublicKey,
    receive_key: ReceiveAuthKey,
    first_hops: Vec<ChannelDetails>,
    tlvs: ReceiveTlvs,
    amount_msats: Option<u64>,
    delegate: D,
    paths: Result<Vec<BlindedPaymentPath>, ()>,
) where
    D: FnOnce(
        PublicKey,
        ReceiveAuthKey,
        Vec<ChannelDetails>,
        ReceiveTlvs,
        Option<u64>,
    ) -> Result<Vec<BlindedPaymentPath>, ()>,

    requires
        exists|router: &mut TrampolineAwareRouter|
            {
                &&& #[trigger] call_ensures(
                    TrampolineAwareRouter::set_trampoline_path,
                    (router, None::<Vec<PublicKey>>),
                    (),
                )
                &&& *router == before
                &&& *final(router) == after
            },
        call_ensures(
            TrampolineAwareRouter::create_blinded_payment_paths::<D>,
            (&after, recipient, receive_key, first_hops, tlvs, amount_msats, delegate),
            paths,
        ),
    ensures
        delegate.ensures((recipient, receive_key, first_hops, tlvs, amount_msats), paths),
{
}

/// Setting or clearing the nodes leaves the source of entropy as it was, and what was set before
/// leaves no trace.
pub proof fn law_setting_forgets_what_was_set(
    before: TrampolineAwareRouter,
    nodes: Option<Vec<PublicKey>>,
    after: TrampolineAwareRouter,
)
    requires
        exists|router: &mut TrampolineAwareRouter|
            {
                &&& #[trigger] call_ensures(
                    TrampolineAwareRouter::set_trampoline_path,
                    (router, nodes),
                    (),
                )
                &&& *router == before
                &&& *final(router) == after
            },
    ensures
        after.entropy_source() == before.entropy_source(),
        nodes is None ==> after@ is None,
        nodes matches Some(nodes) ==> after@ == Some(nodes@),
{
}

/// A copy of a router is configured as the router is, and has its entropy from the same source.
pub proof fn law_copied_router_is_configured_alike(
    router: TrampolineAwareRouter,
    copy: TrampolineAwareRouter,
)
    requires
        call_ensures(TrampolineAwareRouter::clone, (&router,), copy),
    ensures
        copy@ == router@,
        copy.entropy_source() == router.entropy_source(),
{
}

/// A copy of the recipient's payload is the same payload.
pub proof fn law_copied_payload_is_the_same(tlvs: ReceiveTlvs, copy: ReceiveTlvs)
    requires
        call_ensures(ReceiveTlvs::clone, (&tlvs,), copy),
    ensures
        copy == tlvs,
{
}

/// The relays that are built for `nodes` are these nodes, in this order, and what they are told is
/// the same but for where they forward to.
pub proof fn law_forward_nodes_follow_the_nodes(
    nodes: Vec<PublicKey>,
    recipient: PublicKey,
    max_cltv_expiry: u32,
    amount_msats: Option<u64>,
    forward_nodes: Vec<ForwardNode>,
    i: int,
)
    requires
        call_ensures(
            trampoline_forward_nodes,
            (&nodes, recipient, max_cltv_expiry, amount_msats),
            forward_nodes,
        ),
        0 <= i < nodes@.len(),
    ensures
        forward_nodes@.len() == nodes@.len(),
        forward_nodes@[i].node_id == nodes@[i],
        i + 1 < nodes@.len() ==> forward_nodes@[i].next_trampoline == nodes@[i + 1],
        i + 1 == nodes@.len() ==> forward_nodes@[i].next_trampoline == recipient,
        forward_nodes@[i].cltv_expiry_delta == 144,
        forward_nodes@[i].fee_proportional_millionths == 0,
        forward_nodes@[i].fee_base_msat == 0,
        forward_nodes@[i].max_cltv_expiry == max_cltv_expiry,
        forward_nodes@[i].htlc_minimum_msat == 0,
        forward_nodes@[i].features@ == Seq::<u8>::empty(),
        forward_nodes@[i].next_blinding_override is None,
        amount_msats matches Some(amount) ==> forward_nodes@[i].htlc_maximum_msat == amount,
        amount_msats is None ==> forward_nodes@[i].htlc_maximum_msat == u64::MAX,
{
    let hops = crate::router::trampoline_hops(nodes@, recipient, max_cltv_expiry, amount_msats);
    assert(crate::payload::hops(forward_nodes@).len() == hops.len());
    assert(crate::payload::hops(forward_nodes@)[i] == hops[i]);
}

/// The parts of a path are what it was put together from; the first node, or the recipient where
/// there is none, is the one that a payer is told of.
pub proof fn law_path_parts_are_what_was_given(
    nodes: Vec<PublicKey>,
    recipient: PublicKey,
    blinding_point: PublicKey,
    blinded_hops: Vec<BlindedHop>,
    payinfo: BlindedPayInfo,
    parts: BlindedPathParts,
)
    requires
        call_ensures(
            trampoline_path_parts,
            (&nodes, recipient, blinding_point, blinded_hops, payinfo),
            parts,
        ),
    ensures
        nodes@.len() > 0 ==> parts.introduction_node_id == nodes@[0],
        nodes@.len() == 0 ==> parts.introduction_node_id == recipient,
        parts.blinding_point == blinding_point,
        parts.blinded_hops == blinded_hops,
        parts.payinfo == payinfo,
{
}

/// A relay's mathematical value holds the relay's fields, each under its own name, and the values
/// of a list of relays stand in the order of the list.
pub proof fn law_hops_hold_the_fields(nodes: Seq<ForwardNode>, i: int)
    requires
        0 <= i < nodes.len(),
    ensures
        ({
            let hop = crate::payload::hops(nodes)[i];
            &&& crate::payload::hops(nodes).len() == nodes.len()
            &&& hop == nodes[i]@
            &&& hop.node_id == nodes[i].node_id
            &&& hop.next_trampoline == nodes[i].next_trampoline
            &&& hop.cltv_expiry_delta == nodes[i].cltv_expiry_delta
            &&& hop.fee_proportional_millionths == nodes[i].fee_proportional_millionths
            &&& hop.fee_base_msat == nodes[i].fee_base_msat
            &&& hop.max_cltv_expiry == nodes[i].max_cltv_expiry
            &&& hop.htlc_minimum_msat == nodes[i].htlc_minimum_msat
            &&& hop.features == nodes[i].features@
            &&& hop.next_blinding_override == nodes[i].next_blinding_override
            &&& hop.htlc_maximum_msat == nodes[i].htlc_maximum_msat
        }),
{
}

/// The mathematical value of what a path asks of a payer holds its fields, each under its own name.
pub proof fn law_payinfo_holds_the_fields(payinfo: BlindedPayInfo)
    ensures
        payinfo@.fee_base_msat == payinfo.fee_base_msat,
        payinfo@.fee_proportional_millionths == payinfo.fee_proportional_millionths,
        payinfo@.cltv_expiry_delta == payinfo.cltv_expiry_delta,
        payinfo@.htlc_minimum_msat == payinfo.htlc_minimum_msat,
        payinfo@.htlc_maximum_msat == payinfo.htlc_maximum_msat,
        payinfo@.features == payinfo.features@,
{
}

/// What relays add up to: the blocks of all hops, no fee, and the values that the recipient and
/// every relay accept, all of them and no others. It is nothing exactly where the blocks cannot be
/// counted or where no value is left.
pub proof fn law_aggregate_admits_what_every_hop_admits(
    count: nat,
    relay: Hop,
    payee_minimum_msat: u64,
    payee_maximum_msat: u64,
    min_final_cltv_expiry_delta: u16,
    value: u64,
)
    ensures
        ({
            let admitted = {
                &&& 1 <= value <= 2_100_000_000_000_000_000
                &&& payee_minimum_msat <= value <= payee_maximum_msat
                &&& count > 0 ==> relay.htlc_minimum_msat <= value <= relay.htlc_maximum_msat
            };
            let blocks = min_final_cltv_expiry_delta + count * relay.cltv_expiry_delta;
            match crate::payload::aggregated(
                count,
                relay,
                payee_minimum_msat,
                payee_maximum_msat,
                min_final_cltv_expiry_delta,
            ) {
                Some(info) => {
                    &&& info.fee_base_msat == 0
                    &&& info.fee_proportional_millionths == 0
                    &&& info.cltv_expiry_delta == blocks
                    &&& info.features == Seq::<u8>::empty()
                    &&& info.htlc_minimum_msat <= info.htlc_maximum_msat
                    &&& info.htlc_minimum_msat <= value <= info.htlc_maximum_msat <==> admitted
                },
                None => blocks > 65535 || !admitted,
            }
        }),
{
}

/// The recipient's own expiry delta is 42 blocks, that of a relay is 144, and no path carries more
/// than all bitcoin that will ever exist.
pub proof fn law_numbers_of_a_path()
    ensures
        crate::ldk::min_final_cltv_expiry_delta() == 42,
        TRAMPOLINE_HOP_CLTV_EXPIRY_DELTA == 144,
        crate::router::PAYEE_HTLC_MAXIMUM_MSAT == u64::MAX,
        TOTAL_SUPPLY_MSAT == 21_000_000 * 100_000_000 * 1_000,
{
}

} // verus!
