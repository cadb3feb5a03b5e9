use ctv_vectors::gen::{
    draw_params, draw_spend_indices, pick_in_range, random_bytes_lt, random_tx, random_tx_core,
    random_witness_item, GenParams,
};
use ctv_vectors::tx::{tx_eq, MAX_MONEY_SATOSHIS};
use rand::{Rng, SeedableRng};
use rand_chacha::ChaCha20Rng;

#[test]
fn pick_in_range_exact_values() {
    assert_eq!(pick_in_range(1000, 0, 129), 1000 % 130);
    assert_eq!(pick_in_range(5, 3, 3), 3);
    assert_eq!(pick_in_range(0, 1, 129), 1);
    assert_eq!(pick_in_range(u64::MAX, 0, 129), (u64::MAX % 130) as usize);
    assert_eq!(pick_in_range(12345, 7, 20), 7 + (12345 % 14) as usize);
}

#[test]
fn determinism_same_seed_same_transactions() {
    let mut a = ChaCha20Rng::seed_from_u64(7);
    let mut b = ChaCha20Rng::seed_from_u64(7);
    for _ in 0..25 {
        let ta = random_tx(&mut a);
        let tb = random_tx(&mut b);
        assert!(tx_eq(&ta, &tb));
    }
}

#[test]
fn different_seeds_differ() {
    let mut a = ChaCha20Rng::seed_from_u64(1);
    let mut b = ChaCha20Rng::seed_from_u64(2);
    let ta = random_tx(&mut a);
    let tb = random_tx(&mut b);
    assert!(!tx_eq(&ta, &tb));
}

#[test]
fn random_bytes_budget_accounting() {
    let mut rng = ChaCha20Rng::seed_from_u64(11);
    let mut budget: usize = 5;
    let r = random_bytes_lt(&mut rng, 0, 129, &mut budget);
    assert!(r.len() <= 5);
    assert_eq!(budget, 5 - r.len());

    let mut zero: usize = 0;
    let r = random_bytes_lt(&mut rng, 0, 129, &mut zero);
    assert!(r.is_empty());
    assert_eq!(zero, 0);
}

#[test]
fn random_bytes_fixed_length_draw() {
    // With lo == hi == 32 and a budget far above it, the modulo reduction
    // leaves the candidate length untouched: exactly 32 bytes come out.
    let mut rng = ChaCha20Rng::seed_from_u64(13);
    let mut budget: usize = 10_000;
    let r = random_bytes_lt(&mut rng, 32, 32, &mut budget);
    assert_eq!(r.len(), 32);
    assert_eq!(budget, 10_000 - 32);
    // And two successive draws almost surely differ: the stream advances.
    let mut budget2: usize = 10_000;
    let r2 = random_bytes_lt(&mut rng, 32, 32, &mut budget2);
    assert_ne!(r, r2);
}

#[test]
fn witness_item_bounded() {
    let mut rng = ChaCha20Rng::seed_from_u64(17);
    for _ in 0..50 {
        let mut budget: usize = 10_000;
        let item = random_witness_item(&mut rng, &mut budget);
        assert!(item.len() <= 520);
        assert_eq!(budget, 10_000 - item.len());
    }
}

#[test]
fn zero_budget_truncates_everything() {
    let mut rng = ChaCha20Rng::seed_from_u64(19);
    let p = GenParams {
        version: -2,
        lock_time: 500_000,
        input_count: 129,
        output_count: 129,
        random_bytes_budget: 0,
        has_witness: true,
    };
    let mut budget: usize = 0;
    let t = random_tx_core(&mut rng, &p, &mut budget);
    assert_eq!(budget, 0);
    // The budget was dry from the start: the loops stop after one element.
    assert_eq!(t.inputs.len(), 1);
    assert_eq!(t.outputs.len(), 1);
    for input in &t.inputs {
        assert!(input.script_sig.is_empty());
        for item in &input.witness {
            assert!(item.is_empty());
        }
    }
    for output in &t.outputs {
        assert!(output.script_pubkey.is_empty());
    }
}

#[test]
fn generated_values_in_money_range() {
    let mut rng = ChaCha20Rng::seed_from_u64(23);
    for _ in 0..200 {
        let t = random_tx(&mut rng);
        for output in &t.outputs {
            assert!(output.value <= MAX_MONEY_SATOSHIS);
        }
    }
}

#[test]
fn generated_structure_bounds() {
    let mut rng = ChaCha20Rng::seed_from_u64(29);
    for _ in 0..200 {
        let t = random_tx(&mut rng);
        assert!(1 <= t.inputs.len() && t.inputs.len() <= 129);
        assert!(t.outputs.len() <= 129);
        for input in &t.inputs {
            assert_eq!(input.prev_txid.len(), 32);
            assert!(input.script_sig.len() <= 129);
            assert!(input.witness.len() <= 129);
            for item in &input.witness {
                assert!(item.len() <= 520);
            }
        }
        for output in &t.outputs {
            assert!(output.script_pubkey.len() <= 129);
        }
    }
}

#[test]
fn boundary_coverage_over_large_batch() {
    let mut rng = ChaCha20Rng::seed_from_u64(31);
    let mut min_inputs = usize::MAX;
    let mut max_inputs = 0usize;
    let mut min_outputs = usize::MAX;
    let mut max_outputs = 0usize;
    let mut witness_on = false;
    let mut witness_off = false;
    for _ in 0..10_000 {
        let p = draw_params(&mut rng);
        let mut budget = p.random_bytes_budget;
        let t = random_tx_core(&mut rng, &p, &mut budget);
        min_inputs = min_inputs.min(t.inputs.len());
        max_inputs = max_inputs.max(t.inputs.len());
        min_outputs = min_outputs.min(t.outputs.len());
        max_outputs = max_outputs.max(t.outputs.len());
        if p.has_witness {
            witness_on = true;
        } else {
            witness_off = true;
        }
    }
    assert_eq!(min_inputs, 1);
    assert_eq!(max_inputs, 129);
    assert_eq!(min_outputs, 0);
    assert_eq!(max_outputs, 129);
    assert!(witness_on && witness_off);
}

#[test]
fn budget_spent_never_exceeded() {
    let mut rng = ChaCha20Rng::seed_from_u64(37);
    for _ in 0..100 {
        let p = draw_params(&mut rng);
        let mut budget = p.random_bytes_budget;
        let t = random_tx_core(&mut rng, &p, &mut budget);
        assert!(budget <= p.random_bytes_budget);
        let payload: usize = t
            .inputs
            .iter()
            .map(|i| i.script_sig.len() + i.witness.iter().map(|w| w.len()).sum::<usize>())
            .sum::<usize>()
            + t.outputs.iter().map(|o| o.script_pubkey.len()).sum::<usize>();
        assert!(payload + budget <= p.random_bytes_budget);
        if t.inputs.len() < p.input_count {
            assert_eq!(budget, 0);
        }
        if t.outputs.len() < p.output_count {
            assert_eq!(budget, 0);
        }
    }
}

#[test]
fn no_witness_mode_leaves_scripts_empty() {
    let mut rng = ChaCha20Rng::seed_from_u64(41);
    let p = GenParams {
        version: 1,
        lock_time: 0,
        input_count: 20,
        output_count: 5,
        random_bytes_budget: 10_000,
        has_witness: false,
    };
    let mut budget: usize = 10_000;
    let t = random_tx_core(&mut rng, &p, &mut budget);
    for input in &t.inputs {
        assert!(input.witness.is_empty());
        assert!(input.script_sig.is_empty());
    }
}

#[test]
fn draw_order_and_txid_digest_match_reference() {
    let seed = 99u64;
    let mut gen_rng = ChaCha20Rng::seed_from_u64(seed);
    let p = draw_params(&mut gen_rng);

    // Replay the documented draw order on a fresh stream with the same seed:
    // version, lock time, input count, output count, byte budget, witness
    // flag, then per input a 32-byte preimage and the output index.
    let mut ref_rng = ChaCha20Rng::seed_from_u64(seed);
    assert_eq!(p.version, ref_rng.next_u32() as i32);
    assert_eq!(p.lock_time, ref_rng.next_u32());
    assert_eq!(p.input_count, 1 + (ref_rng.next_u64() % 129) as usize);
    assert_eq!(p.output_count, (ref_rng.next_u64() % 130) as usize);
    assert_eq!(p.random_bytes_budget, (ref_rng.next_u64() % 10_001) as usize);
    assert_eq!(p.has_witness, ref_rng.next_u32() % 2 == 1);

    let mut budget = p.random_bytes_budget;
    let t = random_tx_core(&mut gen_rng, &p, &mut budget);

    let mut preimage = [0u8; 32];
    ref_rng.fill_bytes(&mut preimage);
    let expected = <bitcoin::Txid as bitcoin::hashes::Hash>::hash(&preimage);
    let expected_bytes =
        <bitcoin::Txid as bitcoin::hashes::Hash>::to_byte_array(expected);
    assert_eq!(t.inputs[0].prev_txid.as_slice(), expected_bytes.as_slice());
    assert_eq!(t.inputs[0].prev_vout, ref_rng.next_u32());
}

#[test]
fn spend_indices_start_fixed() {
    let mut rng = ChaCha20Rng::seed_from_u64(43);
    let v = draw_spend_indices(&mut rng);
    assert_eq!(v.len(), 4);
    assert_eq!(v[0], 0);
    assert_eq!(v[1], 1);
}
