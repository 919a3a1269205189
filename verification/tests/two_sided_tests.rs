use m2psu::aok::{
    points_valid, prove_shuffle_adapted_preprocess, random_permutation, setup_params,
};
use m2psu::channel::Message;
use m2psu::feistel::FeistelPrp256;
use m2psu::twosided::{assemble_inputs, correctness_check, Party as FullParty, RoundStep};
use m2psu::two_sided::Party;
use rand::RngCore;

fn random_input(n: usize) -> Vec<u8> {
    let mut v = vec![0u8; 16 * n];
    rand::thread_rng().fill_bytes(&mut v);
    v
}

#[test]
fn borrowing_party_commits_to_its_points() {
    let n = 4;
    let pp = setup_params(n);
    let (pi, _) = random_permutation(n);
    let hint = prove_shuffle_adapted_preprocess(&pp, &pi, n);
    let permut = FeistelPrp256::new(&[9u8; 16]);
    let input_a = random_input(n);
    let input_b = random_input(n);
    let a = Party::new(&input_a, &hint, &permut, n, n);
    let b = Party::new(&input_b, &hint, &permut, n, n);

    let (sigma_a, points_a) = a.gen().unwrap();
    let (sigma_b, points_b) = b.gen().unwrap();
    assert_eq!(points_a.len(), n);
    assert!(points_valid(&points_a) && points_valid(&points_b));
    assert!(b.verify_sigma(&sigma_a, &a.pk(), &points_a, n));
    assert!(a.verify_sigma(&sigma_b, &b.pk(), &points_b, n));

    // a changed digest, key or point is caught
    let mut bad_sigma = sigma_a;
    bad_sigma[0] ^= 1;
    assert!(!b.verify_sigma(&bad_sigma, &a.pk(), &points_a, n));
    assert!(!b.verify_sigma(&sigma_a, &b.pk(), &points_a, n));
    let mut swapped = points_a.clone();
    swapped.swap(0, 1);
    assert!(!b.verify_sigma(&sigma_a, &a.pk(), &swapped, n));
}

#[test]
fn borrowing_party_shuffles_valid_points_only() {
    let n = 3;
    let pp = setup_params(n);
    let (pi, _) = random_permutation(n);
    let hint = prove_shuffle_adapted_preprocess(&pp, &pi, n);
    let permut = FeistelPrp256::new(&[4u8; 16]);
    let input_a = random_input(n);
    let input_b = random_input(n);
    let a = Party::new(&input_a, &hint, &permut, n, n);
    let b = Party::new(&input_b, &hint, &permut, n, n);
    let (_, points_b) = b.gen().unwrap();

    let (_, shuffled) = a.blind_shuffle(&pp, &points_b, n).unwrap();
    assert_eq!(shuffled.len(), n);
    assert!(points_valid(&shuffled));
    // the raised points are not the points handed in
    for p in &shuffled {
        assert!(!points_b.contains(p));
    }

    // y = 2 is not the y-coordinate of a point of the curve
    let mut bad = points_b.clone();
    bad[1] = [0u8; 32];
    bad[1][0] = 2;
    assert!(a.blind_shuffle(&pp, &bad, n).is_none());
}

#[test]
fn round_steps_end_with_the_set_differences() {
    let n = 6;
    let common = 2;
    let mut shared = vec![0u8; 16 * common];
    rand::thread_rng().fill_bytes(&mut shared);
    let mut input_v = shared.clone();
    input_v.extend(random_input(n - common));
    let mut input_w = random_input(n - common);
    input_w.extend(shared);
    let pp = setup_params(n);
    let key = [3u8; 16];
    let left = FullParty::new(false, input_v.clone(), &key, &pp, n, n);
    let right = FullParty::new(true, input_w.clone(), &key, &pp, n, n);

    let (mut state_l, mut msg_l) = left.start().unwrap();
    let (mut state_r, mut msg_r) = right.start().unwrap();
    let mut rounds = 0;
    let (out_l, out_r) = loop {
        rounds += 1;
        let step_l = left.step(&pp, state_l, msg_r);
        let step_r = right.step(&pp, state_r, msg_l);
        match (step_l, step_r) {
            (RoundStep::Send(sl, ml), RoundStep::Send(sr, mr)) => {
                state_l = sl;
                msg_l = ml;
                state_r = sr;
                msg_r = mr;
            }
            (RoundStep::Output(a), RoundStep::Output(b)) => break (a, b),
            _ => panic!("a party stopped"),
        }
    };
    assert_eq!(rounds, 4);
    assert_eq!(out_l.len(), 16 * (n - common));
    assert_eq!(out_r.len(), 16 * (n - common));
    assert!(correctness_check(&input_v, &input_w, &out_l));
    assert!(correctness_check(&input_w, &input_v, &out_r));
}

#[test]
fn round_steps_stop_on_a_message_of_another_round_or_a_bad_commitment() {
    let n = 2;
    let pp = setup_params(n);
    let key = [5u8; 16];
    let left = FullParty::new(false, random_input(n), &key, &pp, n, n);
    let right = FullParty::new(true, random_input(n), &key, &pp, n, n);

    let (state_l, _) = left.start().unwrap();
    let (_, points_r) = right.gen().unwrap();
    let out = left.step(&pp, state_l, Message::Round2((right.pk(), points_r)));
    assert!(matches!(out, RoundStep::Stop));

    // a commitment that does not match the points sent in round 2
    let (state_l, _) = left.start().unwrap();
    let (sigma_r, points_r) = right.gen().unwrap();
    let mut bad_sigma = sigma_r;
    bad_sigma[5] ^= 0x80;
    let next = match left.step(&pp, state_l, Message::Round1(bad_sigma)) {
        RoundStep::Send(state, Message::Round2(_)) => state,
        _ => panic!("round 1 should go on to round 2"),
    };
    let out = left.step(&pp, next, Message::Round2((right.pk(), points_r)));
    assert!(matches!(out, RoundStep::Stop));
}

#[test]
fn assembled_inputs_share_the_common_items() {
    let common = [[1u8; 16], [2u8; 16]];
    let own_v = [[3u8; 16]];
    let own_w = [[4u8; 16]];
    let perm_v = vec![2usize, 0, 1];
    let perm_w = vec![0usize, 1, 2];
    let (v, w) = assemble_inputs(&common, &own_v, &own_w, &perm_v, &perm_w);
    let mut expected_v = vec![3u8; 16];
    expected_v.extend([1u8; 16]);
    expected_v.extend([2u8; 16]);
    assert_eq!(v, expected_v);
    let mut expected_w = vec![1u8; 16];
    expected_w.extend([2u8; 16]);
    expected_w.extend([4u8; 16]);
    assert_eq!(w, expected_w);
    assert!(correctness_check(&v, &w, &[4u8; 16].to_vec()));

    let (pv, _) = random_permutation(3);
    let (pw, _) = random_permutation(3);
    let (v, w) = assemble_inputs(&common, &own_v, &own_w, &pv, &pw);
    assert_eq!(v.len(), 48);
    assert_eq!(w.len(), 48);
    for c in common.iter() {
        assert!(v.chunks(16).any(|b| b == c) && w.chunks(16).any(|b| b == c));
    }
}
