use m2psu::aok::{adapted_proof_is_wf, ddh_proof_is_wf, points_valid, setup_params};
use m2psu::onesided::{
    clear_high_bits, combine_array, item_challenge, prove_items, set_high_bits, unheld_challenges, MsPReceiver,
    MsPSender, PartyReceiver, PartySender,
};
use m2psu::twosided::{correctness_check, Party};
use rand::RngCore;
use std::collections::HashSet;

fn random_items(n: usize) -> Vec<[u8; 16]> {
    let mut rng = rand::thread_rng();
    (0..n)
        .map(|_| {
            let mut b = [0u8; 16];
            rng.fill_bytes(&mut b);
            b
        })
        .collect()
}

fn flatten(items: &[[u8; 16]]) -> Vec<u8> {
    items.iter().flat_map(|b| b.iter().copied()).collect()
}

/// Two inputs of n items sharing `common` items.
fn two_inputs(n: usize, common: usize) -> (Vec<[u8; 16]>, Vec<[u8; 16]>) {
    let shared = random_items(common);
    let mut v = shared.clone();
    v.extend(random_items(n - common));
    let mut w = shared;
    w.extend(random_items(n - common));
    w.reverse();
    (v, w)
}

#[test]
fn onesided_semi_honest_psu1_test() {
    let n = 8;
    let (xs, ys) = two_inputs(n, 3);
    let sender = PartySender::new(flatten(&xs), n, n);
    let receiver = PartyReceiver::new(flatten(&ys), n);
    let (sd_m1, original) = sender.gen();
    assert_eq!(sd_m1.len(), n);
    assert_eq!(original.len(), n);
    let rc_m1 = receiver.gen();
    let sd_m2 = sender.blind_and_shuffle(&rc_m1);
    let blinded = receiver.blind(&sd_m1);
    let indicator = receiver.compare(&blinded, &sd_m2);
    let ys_set: HashSet<[u8; 16]> = ys.iter().copied().collect();
    for (i, x) in xs.iter().enumerate() {
        assert_eq!(indicator[i], ys_set.contains(x));
    }
}

#[test]
fn psu_semi_semi_honest_psu1_test() {
    let n = 6;
    let (xs, ys) = two_inputs(n, 2);
    let sender = m2psu::psu_semi::Sender::new(flatten(&xs), n, n);
    let receiver = m2psu::psu_semi::Receiver::new(flatten(&ys), n);
    let (sd_m1, _) = sender.gen();
    let rc_m1 = receiver.gen();
    let sd_m2 = sender.blind_and_shuffle(&rc_m1);
    let mut sd = sd_m1.clone();
    receiver.blind(&mut sd);
    sender.gen_proof_of_knowledge(&sd_m1);
    let indicator = receiver.compare(&sd, &sd_m2);
    let ys_set: HashSet<[u8; 16]> = ys.iter().copied().collect();
    for (i, x) in xs.iter().enumerate() {
        assert_eq!(indicator[i], ys_set.contains(x));
    }
    let (points, original) = sender.gen();
    let proofs = m2psu::psu_semi::prove_items_mont(&sender, &points, &original);
    assert_eq!(proofs.c.len(), n);
    assert_eq!(proofs.z0.len(), n);
    assert_eq!(proofs.z1.len(), n);
}

#[test]
fn test_semi_honest_psu() {
    let n = 5;
    let (xs, ys) = two_inputs(n, 5);
    let sender = m2psu::oprf::Sender::new(flatten(&xs), n, n);
    let receiver = m2psu::oprf::Receiver::new(flatten(&ys), n);
    let sd_m1 = sender.gen();
    let rc_m1 = receiver.gen();
    let sd_m2 = sender.blind_and_shuffle(&rc_m1.points);
    let mut pts = sd_m1.points.clone();
    receiver.blind(&mut pts);
    assert_eq!(pts, sd_m1.points);
    let indicator = receiver.compare(&pts, &sd_m2.points);
    assert_eq!(indicator.len(), n);
    assert!(indicator.iter().all(|b| *b == 0 || *b == 1));
    // each shuffled point matches itself
    let self_marks = receiver.compare(&sd_m2.points, &sd_m2.points);
    assert!(self_marks.iter().all(|b| *b == 1));
}

#[test]
fn onesided_sender_malicious_psu1_test() {
    let n = 6;
    let (xs, ys) = two_inputs(n, 2);
    let sender = MsPSender::new(flatten(&xs), n, n);
    let receiver = MsPReceiver::new(flatten(&ys), n);
    assert_eq!(sender.n(), n);
    let (points, original) = sender.gen().unwrap();
    let rc_m1 = receiver.gen().unwrap();
    let sd_m2 = sender.blind_and_shuffle(&rc_m1).unwrap();
    let blinded = receiver.blind(&points).unwrap();
    let indicator = receiver.compare(&blinded, &sd_m2);
    let ys_set: HashSet<[u8; 16]> = ys.iter().copied().collect();
    for (i, x) in xs.iter().enumerate() {
        assert_eq!(indicator[i], ys_set.contains(x));
    }
    // the sender's proofs, checked as the receiver does for the items it learns
    let proofs = prove_items(&sender, &points, &original).unwrap();
    for i in 0..n {
        let digest = item_challenge(&xs[i], &points[i], &proofs.c[i], &proofs.z0[i], &proofs.z1[i])
            .unwrap();
        assert_eq!(&digest[..16], &proofs.c[i][..]);
    }
    // a wrong response does not reproduce the challenge
    let mut z0 = proofs.z0[0];
    z0[0] ^= 1;
    let digest = item_challenge(&xs[0], &points[0], &proofs.c[0], &z0, &proofs.z1[0]).unwrap();
    assert_ne!(&digest[..16], &proofs.c[0][..]);
}

#[test]
fn byte_array_helpers() {
    let mut a = [9u8; 32];
    clear_high_bits(&mut a);
    assert_eq!(&a[..16], &[9u8; 16]);
    assert_eq!(&a[16..], &[0u8; 16]);
    let mut b = [5u8; 32];
    m2psu::psu_semi::clear_high_bits(&mut b);
    assert_eq!(&b[16..], &[0u8; 16]);
    let s = set_high_bits(&[3u8; 16]);
    assert_eq!(&s[..16], &[3u8; 16]);
    assert_eq!(&s[16..], &[0u8; 16]);
    let c = combine_array(&[1u8; 16], &[2u8; 16]);
    assert_eq!(&c[..16], &[1u8; 16]);
    assert_eq!(&c[16..], &[2u8; 16]);
}

/// Runs the rounds of the two-sided protocol between two parties in one process.
fn run_two_sided(left: &Party, right: &Party, pp: &m2psu::aok::PublicParams) -> (Vec<u8>, Vec<u8>) {
    let (sigma_l, points_l) = left.gen().unwrap();
    let (sigma_r, points_r) = right.gen().unwrap();
    assert!(left.verify_sigma(&sigma_r, &right.pk(), &points_r));
    assert!(right.verify_sigma(&sigma_l, &left.pk(), &points_l));
    assert!(points_valid(&points_l) && points_valid(&points_r));
    // each party shuffles and blinds the other's points
    let (proof_l, shuffled_r_by_l) = left.blind_shuffle(pp, &points_r).unwrap();
    let (proof_r, shuffled_l_by_r) = right.blind_shuffle(pp, &points_l).unwrap();
    assert!(adapted_proof_is_wf(&proof_r, left.n()));
    let (unblinded_l, ind_l, ddh_l) = left
        .final_response(pp, &right.pk(), &points_l, &shuffled_l_by_r, &points_r, &proof_r)
        .unwrap();
    let (unblinded_r, ind_r, ddh_r) = right
        .final_response(pp, &left.pk(), &points_r, &shuffled_r_by_l, &points_l, &proof_l)
        .unwrap();
    assert!(ddh_proof_is_wf(&ddh_l) && ddh_proof_is_wf(&ddh_r));
    let shrinked_for_l: Vec<[u8; 32]> = ind_r.iter().map(|&j| shuffled_r_by_l[j as usize]).collect();
    let shrinked_for_r: Vec<[u8; 32]> = ind_l.iter().map(|&j| shuffled_l_by_r[j as usize]).collect();
    let out_l = left.reveal_items(&right.pk(), &unblinded_r, &shrinked_for_l, &ddh_r).unwrap();
    let out_r = right.reveal_items(&left.pk(), &unblinded_l, &shrinked_for_r, &ddh_l).unwrap();
    (out_l, out_r)
}

#[test]
fn malicious_psu2_test() {
    let n = 8;
    let (vs, ws) = two_inputs(n, 3);
    let input_v = flatten(&vs);
    let input_w = flatten(&ws);
    let aes_key = [7u8; 16];
    let pp = setup_params(n);
    let left = Party::new(false, input_v.clone(), &aes_key, &pp, n, n);
    let right = Party::new(true, input_w.clone(), &aes_key, &pp, n, n);
    assert!(!left.server() && right.server());
    let (recovered_w, recovered_v) = run_two_sided(&left, &right, &pp);
    assert!(correctness_check(&input_v, &input_w, &recovered_w), "Incorrect output!");
    assert!(correctness_check(&input_w, &input_v, &recovered_v), "Incorrect output!");
    assert_eq!(recovered_w.len(), 16 * (n - 3));
    assert_eq!(recovered_v.len(), 16 * (n - 3));
}

#[test]
fn two_sided_rejects_a_shuffle_proof_for_other_points() {
    let n = 4;
    let (vs, ws) = two_inputs(n, 1);
    let aes_key = [1u8; 16];
    let pp = setup_params(n);
    let left = Party::new(false, flatten(&vs), &aes_key, &pp, n, n);
    let right = Party::new(true, flatten(&ws), &aes_key, &pp, n, n);
    let (_, points_l) = left.gen().unwrap();
    let (_, points_r) = right.gen().unwrap();
    let (proof_r, mut shuffled) = right.blind_shuffle(&pp, &points_l).unwrap();
    shuffled.swap(0, 1);
    shuffled[0] = points_r[0];
    assert!(left
        .final_response(&pp, &right.pk(), &points_l, &shuffled, &points_r, &proof_r)
        .is_none());
}

#[test]
fn correctness_check_cases() {
    let v = flatten(&[[1u8; 16], [2u8; 16]]);
    let w = flatten(&[[2u8; 16], [3u8; 16], [4u8; 16]]);
    assert!(correctness_check(&v, &w, &flatten(&[[3u8; 16], [4u8; 16]])));
    assert!(correctness_check(&v, &w, &Vec::new()));
    assert!(!correctness_check(&v, &w, &flatten(&[[2u8; 16]])));
    assert!(!correctness_check(&v, &w, &flatten(&[[5u8; 16]])));
    assert!(correctness_check(&v, &w, &flatten(&[[3u8; 16], [3u8; 16]])));
}

#[test]
fn duplex_ends_are_crossed() {
    let (a, b) = m2psu::onesided::duplex::<u32>();
    a.tx.sender.send(5).unwrap();
    a.tx.sender.send(6).unwrap();
    b.tx.sender.send(7).unwrap();
    assert_eq!(b.rx.receiver.recv(), Ok(5));
    assert_eq!(b.rx.receiver.recv(), Ok(6));
    assert_eq!(a.rx.receiver.recv(), Ok(7));
    assert!(a.rx.receiver.try_recv().is_err());
    assert!(b.rx.receiver.try_recv().is_err());
}

#[test]
fn psu_semi_sender_malicious_psu1_test() {
    let n = 6;
    let (xs, ys) = two_inputs(n, 3);
    let sender = m2psu::psu_semi::Sender::new(flatten(&xs), n, n);
    let receiver = m2psu::psu_semi::Receiver::new(flatten(&ys), n);
    let (points, original) = sender.gen();
    let rc_m1 = receiver.gen();
    let sd_m2 = sender.blind_and_shuffle(&rc_m1);
    let mut blinded = points.clone();
    receiver.blind(&mut blinded);
    let indicator = receiver.compare(&blinded, &sd_m2);
    let ys_set: HashSet<[u8; 16]> = ys.iter().copied().collect();
    for (i, x) in xs.iter().enumerate() {
        assert_eq!(indicator[i], ys_set.contains(x));
    }
    let proofs = m2psu::psu_semi::prove_items_mont(&sender, &points, &original);
    assert_eq!(proofs.c.len(), n);
    assert_eq!(proofs.z0.len(), n);
    assert_eq!(proofs.z1.len(), n);
}

#[test]
fn unheld_challenges_cover_the_items_not_held() {
    let n = 5;
    let (xs, ys) = two_inputs(n, 2);
    let sender = MsPSender::new(flatten(&xs), n, n);
    let receiver = MsPReceiver::new(flatten(&ys), n);
    let (points, original) = sender.gen().unwrap();
    let rc_m1 = receiver.gen().unwrap();
    let sd_m2 = sender.blind_and_shuffle(&rc_m1).unwrap();
    let blinded = receiver.blind(&points).unwrap();
    let indicator = receiver.compare(&blinded, &sd_m2);
    let proofs = prove_items(&sender, &points, &original).unwrap();
    let digests = unheld_challenges(&xs, &points, &indicator, &proofs);
    assert_eq!(digests.len(), indicator.iter().filter(|b| !**b).count());
    assert_eq!(digests.len(), 3);
    let mut k = 0;
    for i in 0..n {
        if !indicator[i] {
            let d = digests[k].unwrap();
            assert_eq!(&d[..16], &proofs.c[i][..]);
            k += 1;
        }
    }
}
