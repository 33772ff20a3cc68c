use std::sync::Arc;

use bitcoin::hashes::sha256::Hash as Sha256;
use bitcoin::hashes::{Hash as _, HashEngine, Hmac, HmacEngine};
use bitcoin::secp256k1::ecdh::SharedSecret;
use bitcoin::secp256k1::{PublicKey, Scalar, Secp256k1, SecretKey};
use lightning::blinded_path::payment::{BlindedPaymentPath, Bolt12RefundContext, PaymentContext};
use lightning::blinded_path::IntroductionNode;
use lightning::sign::{EntropySource, KeysManager, ReceiveAuthKey};
use lightning_types::payment::PaymentSecret;

use trampoline_router::payload::{BlindedPayInfo, ReceiveTlvs};
use trampoline_router::router::{
    trampoline_forward_nodes, trampoline_path_parts, trampoline_payment_path,
    TrampolineAwareRouter,
};

const AMOUNT_MSAT: u64 = 50_000_000;
const SUPPLY_MSAT: u64 = 21_000_000 * 100_000_000 * 1_000;

fn secret(byte: u8) -> SecretKey {
    SecretKey::from_slice(&[byte; 32]).unwrap()
}

fn node(byte: u8) -> PublicKey {
    PublicKey::from_secret_key(&Secp256k1::new(), &secret(byte))
}

fn receive_key() -> ReceiveAuthKey {
    ReceiveAuthKey([41; 32])
}

fn tlvs(htlc_minimum_msat: u64) -> ReceiveTlvs {
    ReceiveTlvs {
        payment_secret: PaymentSecret([7; 32]),
        max_cltv_expiry: 800_000,
        htlc_minimum_msat,
        payment_context: PaymentContext::Bolt12Refund(Bolt12RefundContext { payment_metadata: None }),
    }
}

fn keys() -> Arc<KeysManager> {
    Arc::new(KeysManager::new(&[9; 32], 42, 43, true))
}

fn create(
    router: &TrampolineAwareRouter, recipient: PublicKey, htlc_minimum_msat: u64, amount: Option<u64>,
) -> Result<Vec<BlindedPaymentPath>, ()> {
    router.create_blinded_payment_paths(
        recipient,
        receive_key(),
        Vec::new(),
        tlvs(htlc_minimum_msat),
        amount,
        |_, _, _, _, _| panic!("delegated"),
    )
}

fn configured(nodes: Vec<PublicKey>) -> TrampolineAwareRouter {
    let mut router = TrampolineAwareRouter::new(keys());
    router.set_trampoline_path(Some(nodes));
    router
}

fn only(paths: Result<Vec<BlindedPaymentPath>, ()>) -> BlindedPaymentPath {
    let mut paths = paths.unwrap();
    assert_eq!(paths.len(), 1);
    paths.remove(0)
}

/// Whether a request reaches the inner router, with the arguments that it was made with, and
/// whether the inner router's answer is the one that comes back.
fn delegates(router: &TrampolineAwareRouter) -> bool {
    let answer = only(create(&configured(vec![node(3)]), node(1), 1, None));
    let mut asked = false;
    let paths = router.create_blinded_payment_paths(
        node(1),
        receive_key(),
        Vec::new(),
        tlvs(5),
        Some(AMOUNT_MSAT),
        |recipient, key, first_hops, tlvs, amount| {
            asked = true;
            assert_eq!(recipient, node(1));
            assert!(key == receive_key());
            assert!(first_hops.is_empty());
            assert_eq!(tlvs.payment_secret, PaymentSecret([7; 32]));
            assert_eq!(tlvs.max_cltv_expiry, 800_000);
            assert_eq!(tlvs.htlc_minimum_msat, 5);
            assert_eq!(amount, Some(AMOUNT_MSAT));
            Ok(vec![answer.clone(), answer.clone()])
        },
    );
    if asked {
        assert_eq!(paths, Ok(vec![answer.clone(), answer]));
    }
    asked
}

fn quarter_round(s: &mut [u32; 16], a: usize, b: usize, c: usize, d: usize) {
    s[a] = s[a].wrapping_add(s[b]);
    s[d] = (s[d] ^ s[a]).rotate_left(16);
    s[c] = s[c].wrapping_add(s[d]);
    s[b] = (s[b] ^ s[c]).rotate_left(12);
    s[a] = s[a].wrapping_add(s[b]);
    s[d] = (s[d] ^ s[a]).rotate_left(8);
    s[c] = s[c].wrapping_add(s[d]);
    s[b] = (s[b] ^ s[c]).rotate_left(7);
}

/// Decrypts what was encrypted with ChaCha20-Poly1305 and a zero nonce, without checking the tag.
fn decrypt(key: [u8; 32], payload: &[u8]) -> Vec<u8> {
    let mut plain = Vec::new();
    for (block, chunk) in payload[..payload.len() - 16].chunks(64).enumerate() {
        let mut start = [0x61707865u32, 0x3320646e, 0x79622d32, 0x6b206574, 0, 0, 0, 0, 0, 0, 0, 0, 0, 0, 0, 0];
        for i in 0..8 {
            start[4 + i] = u32::from_le_bytes([key[4 * i], key[4 * i + 1], key[4 * i + 2], key[4 * i + 3]]);
        }
        start[12] = block as u32 + 1;
        let mut s = start;
        for _ in 0..10 {
            for i in 0..4 {
                quarter_round(&mut s, i, 4 + i, 8 + i, 12 + i);
            }
            for i in 0..4 {
                quarter_round(&mut s, i, 4 + (i + 1) % 4, 8 + (i + 2) % 4, 12 + (i + 3) % 4);
            }
        }
        for (i, byte) in chunk.iter().enumerate() {
            plain.push(byte ^ s[i / 4].wrapping_add(start[i / 4]).to_le_bytes()[i % 4]);
        }
    }
    plain
}

/// The records of a stream whose types and lengths fit one byte, but for the padding, and the rest
/// from the first wider type on.
fn records(plain: &[u8]) -> (Vec<(u8, Vec<u8>)>, Vec<u8>) {
    let mut found = Vec::new();
    let mut at = 0;
    while at < plain.len() && plain[at] < 0xfd {
        let end = at + 2 + plain[at + 1] as usize;
        if plain[at] != 1 {
            found.push((plain[at], plain[at + 2..end].to_vec()));
        }
        at = end;
    }
    (found, plain[at..].to_vec())
}

/// What each hop of `path` reads, given the hops' secret keys.
fn payloads(path: &BlindedPaymentPath, secrets: &[SecretKey]) -> Vec<Vec<u8>> {
    let mut plain = Vec::new();
    let mut blinding_point = path.blinding_point();
    for (hop, secret) in path.blinded_hops().iter().zip(secrets) {
        let shared = SharedSecret::new(&blinding_point, secret);
        let mut hmac = HmacEngine::<Sha256>::new(b"rho");
        hmac.input(shared.as_ref());
        plain.push(decrypt(Hmac::from_engine(hmac).to_byte_array(), &hop.encrypted_payload));
        let mut sha = Sha256::engine();
        sha.input(&blinding_point.serialize());
        sha.input(shared.as_ref());
        let factor = Scalar::from_be_bytes(Sha256::from_engine(sha).to_byte_array()).unwrap();
        blinding_point = blinding_point.mul_tweak(&Secp256k1::new(), &factor).unwrap();
    }
    plain
}

#[test]
fn new_router_delegates() {
    assert!(delegates(&TrampolineAwareRouter::new(keys())));
}

#[test]
fn delegate_error_comes_back() {
    let router = TrampolineAwareRouter::new(keys());
    let paths = router.create_blinded_payment_paths(
        node(1),
        receive_key(),
        Vec::new(),
        tlvs(1),
        None,
        |_, _, _, _, _| Err(()),
    );
    assert_eq!(paths, Err(()));
}

#[test]
fn configured_router_does_not_delegate() {
    assert!(!delegates(&configured(vec![node(2), node(3)])));
}

#[test]
fn cleared_router_delegates_again() {
    let mut router = configured(vec![node(2), node(3)]);
    router.set_trampoline_path(None);
    assert!(delegates(&router));
}

#[test]
fn last_path_set_is_the_one_built() {
    let mut router = configured(vec![node(2), node(3)]);
    router.set_trampoline_path(Some(vec![node(4)]));
    let path = only(create(&router, node(1), 1, Some(AMOUNT_MSAT)));
    assert_eq!(path.introduction_node(), &IntroductionNode::NodeId(node(4)));
    assert_eq!(path.blinded_hops().len(), 2);
}

#[test]
fn clone_keeps_its_own_path() {
    let mut router = configured(vec![node(2), node(3)]);
    let copy = router.clone();
    router.set_trampoline_path(None);
    assert!(delegates(&router));
    let path = only(create(&copy, node(1), 1, None));
    assert_eq!(path.introduction_node(), &IntroductionNode::NodeId(node(2)));
    assert_eq!(path.blinded_hops().len(), 3);
}

#[test]
fn introduction_and_relay_combinations() {
    let (l1, l2, e2, e3) = (node(1), node(12), node(22), node(23));
    let mut router = TrampolineAwareRouter::new(keys());
    for (intro, relay) in [(e2, e3), (e2, l2), (l2, e2)] {
        router.set_trampoline_path(Some(vec![intro, relay]));
        let path = only(create(&router, l1, 1, Some(AMOUNT_MSAT)));
        assert_eq!(path.introduction_node(), &IntroductionNode::NodeId(intro));
        assert_eq!(path.blinded_hops().len(), 3);
        assert_eq!(path.payinfo.fee_base_msat, 0);
        assert_eq!(path.payinfo.fee_proportional_millionths, 0);
        assert_eq!(path.payinfo.cltv_expiry_delta, 42 + 2 * 144);
        assert_eq!(path.payinfo.htlc_minimum_msat, 1);
        assert_eq!(path.payinfo.htlc_maximum_msat, AMOUNT_MSAT);
        assert!(path.payinfo.features.le_flags().is_empty());
        router.set_trampoline_path(None);
        assert!(delegates(&router));
    }
}

#[test]
fn relays_forward_to_one_another_and_to_the_recipient() {
    let nodes = vec![node(2), node(3), node(4)];
    let relays = trampoline_forward_nodes(&nodes, node(1), 800_000, Some(AMOUNT_MSAT));
    assert_eq!(relays.len(), 3);
    for (relay, (id, next)) in
        relays.iter().zip([(node(2), node(3)), (node(3), node(4)), (node(4), node(1))])
    {
        assert_eq!(relay.node_id, id);
        assert_eq!(relay.next_trampoline, next);
        assert_eq!(relay.cltv_expiry_delta, 144);
        assert_eq!(relay.fee_proportional_millionths, 0);
        assert_eq!(relay.fee_base_msat, 0);
        assert_eq!(relay.max_cltv_expiry, 800_000);
        assert_eq!(relay.htlc_minimum_msat, 0);
        assert!(relay.features.is_empty());
        assert_eq!(relay.next_blinding_override, None);
        assert_eq!(relay.htlc_maximum_msat, AMOUNT_MSAT);
    }
    assert!(trampoline_forward_nodes(&Vec::new(), node(1), 800_000, None).is_empty());
    assert_eq!(trampoline_forward_nodes(&nodes, node(1), 0, None)[1].htlc_maximum_msat, u64::MAX);
}

#[test]
fn order_and_recipient_show_in_the_relays() {
    let links = |nodes: Vec<PublicKey>, recipient: PublicKey| {
        trampoline_forward_nodes(&nodes, recipient, 1, None)
            .iter()
            .map(|relay| (relay.node_id, relay.next_trampoline))
            .collect::<Vec<_>>()
    };
    let forth = links(vec![node(2), node(3)], node(1));
    assert_eq!(forth, vec![(node(2), node(3)), (node(3), node(1))]);
    assert_ne!(forth, links(vec![node(3), node(2)], node(1)));
    assert_ne!(forth, links(vec![node(2), node(3)], node(4)));
    assert_ne!(forth, links(vec![node(2)], node(1)));
}

#[test]
fn a_node_may_occur_twice() {
    let nodes = vec![node(2), node(2)];
    let relays = trampoline_forward_nodes(&nodes, node(2), 1, None);
    assert_eq!(relays[0].next_trampoline, node(2));
    assert_eq!(relays[1].next_trampoline, node(2));
    assert_eq!(only(create(&configured(nodes), node(2), 1, None)).blinded_hops().len(), 3);
}

#[test]
fn each_hop_reads_what_it_needs() {
    let router = configured(vec![node(2), node(3)]);
    let path = only(create(&router, node(1), 1_000, Some(AMOUNT_MSAT)));
    let plain = payloads(&path, &[secret(2), secret(3), secret(1)]);
    assert_eq!(plain.len(), 3);
    let height = 800_000u32.to_be_bytes().to_vec();
    let relay = vec![0, 144, 0, 0, 0, 0];
    for (read, next) in plain.iter().zip([node(3), node(1)]) {
        let expected =
            vec![(4, next.serialize().to_vec()), (10, relay.clone()), (12, height.clone())];
        assert_eq!(records(read), (expected, Vec::new()));
    }
    let (known, rest) = records(&plain[2]);
    let mut constraints = height;
    constraints.extend([0x03, 0xe8]);
    assert_eq!(known, vec![(12, constraints)]);
    assert_eq!(rest[..6], [0xfe, 0, 1, 0, 0, 32]);
    assert_eq!(rest[6..38], [7; 32]);
}

#[test]
fn every_path_is_blinded_afresh() {
    let router = configured(vec![node(2)]);
    let first = only(create(&router, node(1), 1, None));
    let second = only(create(&router, node(1), 1, None));
    assert_ne!(first.blinding_point(), second.blinding_point());
    assert_ne!(first.blinded_hops(), second.blinded_hops());
    assert_eq!(first.payinfo, second.payinfo);
    for path in [first, second] {
        assert_ne!(path.blinded_hops()[0].blinded_node_id, node(2));
        assert_ne!(path.blinded_hops()[1].blinded_node_id, node(1));
    }
}

#[test]
fn path_follows_from_arguments_and_entropy() {
    let built = |byte: u8, recipient: u8, minimum: u64| {
        let nodes = vec![node(byte)];
        trampoline_payment_path(&nodes, node(recipient), receive_key(), tlvs(minimum), None, &keys())
    };
    assert_eq!(built(2, 1, 1), built(2, 1, 1));
    assert!(built(2, 1, 1).unwrap().blinded_hops() != built(3, 1, 1).unwrap().blinded_hops());
    assert!(built(2, 1, 1).unwrap().blinded_hops() != built(2, 4, 1).unwrap().blinded_hops());
    assert!(built(2, 1, 1).unwrap().blinded_hops() != built(2, 1, 2).unwrap().blinded_hops());
}

#[test]
fn path_without_relays_starts_at_the_recipient() {
    let path = only(create(&configured(Vec::new()), node(1), 1, Some(AMOUNT_MSAT)));
    assert_eq!(path.introduction_node(), &IntroductionNode::NodeId(node(1)));
    assert_eq!(path.blinded_hops().len(), 1);
    assert_eq!(path.payinfo.cltv_expiry_delta, 42);
    assert_eq!(path.payinfo.htlc_minimum_msat, 1);
    assert_eq!(path.payinfo.htlc_maximum_msat, SUPPLY_MSAT);
}

#[test]
fn path_without_an_amount_carries_anything() {
    let path = only(create(&configured(vec![node(2)]), node(1), 2_000, None));
    assert_eq!(path.payinfo.cltv_expiry_delta, 186);
    assert_eq!(path.payinfo.htlc_minimum_msat, 2_000);
    assert_eq!(path.payinfo.htlc_maximum_msat, SUPPLY_MSAT);
}

#[test]
fn amount_beyond_the_supply_is_capped() {
    let path = only(create(&configured(vec![node(2)]), node(1), 1, Some(SUPPLY_MSAT + 1)));
    assert_eq!(path.payinfo.htlc_maximum_msat, SUPPLY_MSAT);
}

#[test]
fn amount_at_the_minimum_is_payable() {
    let path = only(create(&configured(vec![node(2)]), node(1), AMOUNT_MSAT, Some(AMOUNT_MSAT)));
    assert_eq!(path.payinfo.htlc_minimum_msat, AMOUNT_MSAT);
    assert_eq!(path.payinfo.htlc_maximum_msat, AMOUNT_MSAT);
}

#[test]
fn amount_below_the_minimum_is_refused() {
    let router = configured(vec![node(2)]);
    assert_eq!(create(&router, node(1), AMOUNT_MSAT + 1, Some(AMOUNT_MSAT)), Err(()));
    assert!(create(&configured(Vec::new()), node(1), AMOUNT_MSAT + 1, Some(AMOUNT_MSAT)).is_ok());
}

#[test]
fn zero_amount_is_refused() {
    assert_eq!(create(&configured(vec![node(2)]), node(1), 0, Some(0)), Err(()));
    assert!(create(&configured(Vec::new()), node(1), 0, Some(0)).is_ok());
}

#[test]
fn minimum_beyond_the_supply_is_refused() {
    assert_eq!(create(&configured(vec![node(2)]), node(1), SUPPLY_MSAT + 1, None), Err(()));
    assert_eq!(create(&configured(Vec::new()), node(1), SUPPLY_MSAT + 1, None), Err(()));
}

#[test]
fn longest_path_has_454_relays() {
    let path = only(create(&configured(vec![node(2); 454]), node(1), 1, Some(AMOUNT_MSAT)));
    assert_eq!(path.blinded_hops().len(), 455);
    assert_eq!(path.payinfo.cltv_expiry_delta, 65_418);
    assert_eq!(create(&configured(vec![node(2); 455]), node(1), 1, Some(AMOUNT_MSAT)), Err(()));
}

#[test]
fn payinfo_adds_up() {
    let built = |nodes: Vec<PublicKey>, amount: Option<u64>| {
        trampoline_payment_path(&nodes, node(1), receive_key(), tlvs(10), amount, &keys())
    };
    let relays = vec![node(2), node(3), node(4)];
    let info = built(relays.clone(), Some(AMOUNT_MSAT)).unwrap().payinfo;
    assert_eq!(info.fee_base_msat, 0);
    assert_eq!(info.fee_proportional_millionths, 0);
    assert_eq!(info.cltv_expiry_delta, 474);
    assert_eq!(info.htlc_minimum_msat, 10);
    assert_eq!(info.htlc_maximum_msat, AMOUNT_MSAT);
    assert!(info.features.le_flags().is_empty());
    assert!(built(relays, Some(9)).is_err());
    for count in [455, 65_535, 65_536] {
        assert!(built(vec![node(2); count], None).is_err());
    }
}

/// The blinding point of a path for which `keys` is drawn on next.
fn next_blinding_point(keys: &KeysManager) -> PublicKey {
    let drawn = SecretKey::from_slice(&keys.get_secure_random_bytes()).unwrap();
    PublicKey::from_secret_key(&Secp256k1::new(), &drawn)
}

#[test]
fn every_path_uses_up_one_draw() {
    let router = configured(vec![node(2)]);
    let expected = keys();
    for _ in 0..3 {
        let path = only(create(&router, node(1), 1, Some(AMOUNT_MSAT)));
        assert_eq!(path.blinding_point(), next_blinding_point(&expected));
    }
}

#[test]
fn refused_path_uses_up_one_draw() {
    let expected = keys();
    let entropy_source = keys();
    let mut router = TrampolineAwareRouter::new(entropy_source.clone());
    router.set_trampoline_path(Some(vec![node(2)]));
    assert_eq!(create(&router, node(1), 1, Some(0)), Err(()));
    next_blinding_point(&expected);
    let path = only(create(&router, node(1), 1, Some(AMOUNT_MSAT)));
    assert_eq!(path.blinding_point(), next_blinding_point(&expected));
    router.set_trampoline_path(Some(vec![node(2); 455]));
    assert_eq!(create(&router, node(1), 1, None), Err(()));
    next_blinding_point(&expected);
    assert_eq!(entropy_source.get_secure_random_bytes(), expected.get_secure_random_bytes());
}

#[test]
fn delegation_draws_nothing() {
    let entropy_source = keys();
    let router = TrampolineAwareRouter::new(entropy_source.clone());
    assert!(delegates(&router));
    assert_eq!(entropy_source.get_secure_random_bytes(), keys().get_secure_random_bytes());
}

#[test]
fn copied_payload_is_the_same() {
    let original = tlvs(10);
    let copy = original.clone();
    assert_eq!(copy.payment_secret, original.payment_secret);
    assert_eq!(copy.max_cltv_expiry, original.max_cltv_expiry);
    assert_eq!(copy.htlc_minimum_msat, original.htlc_minimum_msat);
    assert_eq!(copy.payment_context, original.payment_context);
}

#[test]
fn parts_name_the_introduction_node() {
    let payinfo = || BlindedPayInfo {
        fee_base_msat: 1,
        fee_proportional_millionths: 2,
        cltv_expiry_delta: 3,
        htlc_minimum_msat: 4,
        htlc_maximum_msat: 5,
        features: vec![6],
    };
    let hops = only(create(&configured(vec![node(2)]), node(1), 1, None)).blinded_hops().to_vec();
    let nodes = vec![node(2), node(3)];
    let parts = trampoline_path_parts(&nodes, node(1), node(5), hops.clone(), payinfo());
    assert_eq!(parts.introduction_node_id, node(2));
    assert_eq!(parts.blinding_point, node(5));
    assert_eq!(parts.blinded_hops, hops);
    assert_eq!(parts.payinfo.cltv_expiry_delta, 3);
    assert_eq!(parts.payinfo.features, vec![6]);
    let parts = trampoline_path_parts(&Vec::new(), node(1), node(5), hops, payinfo());
    assert_eq!(parts.introduction_node_id, node(1));
}
