use ctv_vectors::codec::encode_checked;
use ctv_vectors::gen::random_tx;
use ctv_vectors::tx::{tx_eq, Tx, TxInput, TxOutput};
use ctv_vectors::vectors::{
    describe, documentation_entry, make_test_vector, prepare_case, CtvTestVectorEntry,
};
use rand::SeedableRng;
use rand_chacha::ChaCha20Rng;

#[test]
fn round_trip_holds_for_generated_batch() {
    let mut rng = ChaCha20Rng::seed_from_u64(101);
    for _ in 0..100 {
        let t = random_tx(&mut rng);
        let hex = encode_checked(&t);
        assert!(hex.is_some());
    }
}

#[test]
fn encoded_hex_parses_with_reference_decoder() {
    let mut rng = ChaCha20Rng::seed_from_u64(103);
    let t = random_tx(&mut rng);
    let hex = encode_checked(&t).expect("round trip");
    let parsed: bitcoin::Transaction =
        bitcoin::consensus::encode::deserialize_hex(&hex).expect("reference decode");
    assert_eq!(parsed.version.0, t.version);
    assert_eq!(parsed.lock_time.to_consensus_u32(), t.lock_time);
    assert_eq!(parsed.input.len(), t.inputs.len());
    assert_eq!(parsed.output.len(), t.outputs.len());
    for (theirs, ours) in parsed.input.iter().zip(t.inputs.iter()) {
        assert_eq!(theirs.previous_output.vout, ours.prev_vout);
        assert_eq!(theirs.sequence.0, ours.sequence);
        assert_eq!(theirs.script_sig.as_bytes(), ours.script_sig.as_slice());
    }
    for (theirs, ours) in parsed.output.iter().zip(t.outputs.iter()) {
        assert_eq!(theirs.value.to_sat(), ours.value);
        assert_eq!(theirs.script_pubkey.as_bytes(), ours.script_pubkey.as_slice());
    }
}

#[test]
fn end_to_end_scenario() {
    let mut rng = ChaCha20Rng::seed_from_u64(42);
    let case = prepare_case(&mut rng).expect("self-check");
    assert!(1 <= case.tx.inputs.len() && case.tx.inputs.len() <= 129);
    assert!(case.tx.outputs.len() <= 129);
    assert_eq!(case.desc.inputs as usize, case.tx.inputs.len());
    assert_eq!(case.desc.outputs as usize, case.tx.outputs.len());
    assert_eq!(case.desc.version, case.tx.version);
    let any_witness = case.tx.inputs.iter().any(|i| !i.witness.is_empty());
    let any_script_sig = case.tx.inputs.iter().any(|i| !i.script_sig.is_empty());
    assert_eq!(case.desc.witness, any_witness);
    assert_eq!(case.desc.script_sigs, any_script_sig);
    assert_eq!(case.spend_index.len(), 4);
    assert_eq!(case.spend_index[0], 0);
    assert_eq!(case.spend_index[1], 1);
    // Decoding the hex with the reference decoder yields the same structure.
    let parsed: bitcoin::Transaction =
        bitcoin::consensus::encode::deserialize_hex(&case.hex).expect("reference decode");
    assert_eq!(parsed.input.len(), case.tx.inputs.len());
    assert_eq!(parsed.output.len(), case.tx.outputs.len());
}

fn sample_tx() -> Tx {
    Tx {
        version: 3,
        lock_time: 77,
        inputs: vec![
            TxInput {
                prev_txid: vec![0xaa; 32],
                prev_vout: 1,
                script_sig: vec![0x51],
                sequence: 0xffff_ffff,
                witness: vec![],
            },
            TxInput {
                prev_txid: vec![0xbb; 32],
                prev_vout: 0,
                script_sig: vec![],
                sequence: 0,
                witness: vec![],
            },
        ],
        outputs: vec![TxOutput { value: 5000, script_pubkey: vec![0x6a, 0x01, 0x02] }],
    }
}

#[test]
fn describe_reports_counts_and_flags() {
    let t = sample_tx();
    let d = describe(&t);
    assert_eq!(d.inputs, 2);
    assert_eq!(d.outputs, 1);
    assert_eq!(d.version, 3);
    assert!(d.script_sigs);
    assert!(!d.witness);

    let mut witnessed = sample_tx();
    witnessed.inputs[1].witness = vec![vec![1, 2, 3]];
    let d = describe(&witnessed);
    assert!(d.witness);
}

#[test]
fn hand_built_transaction_round_trips() {
    let t = sample_tx();
    let hex = encode_checked(&t).expect("round trip");
    assert!(!hex.is_empty());
    assert!(hex.chars().all(|c| c.is_ascii_hexdigit()));
}

#[test]
fn structural_equality_distinguishes() {
    let a = sample_tx();
    let mut b = sample_tx();
    assert!(tx_eq(&a, &b));
    b.outputs[0].value = 5001;
    assert!(!tx_eq(&a, &b));
    let mut c = sample_tx();
    c.inputs[0].witness = vec![vec![]];
    assert!(!tx_eq(&a, &c));
}

#[test]
fn documentation_entry_is_fixed_string() {
    match documentation_entry() {
        CtvTestVectorEntry::Documentation(s) => {
            assert_eq!(
                s,
                "{\"hex_tx\":string (hex tx), \"spend_index\":[number], \"result\": [string (hex hash)]}"
            );
        },
        CtvTestVectorEntry::TestVector(_) => panic!("expected documentation entry"),
    }
}

#[test]
fn test_vector_lists_run_in_parallel() {
    let mut rng = ChaCha20Rng::seed_from_u64(107);
    let case = prepare_case(&mut rng).expect("self-check");
    let results: Vec<String> =
        case.spend_index.iter().map(|i| format!("hash-{i}")).collect();
    let v = make_test_vector(case.hex.clone(), case.spend_index.clone(), results, case.desc);
    assert_eq!(v.spend_index.len(), v.result.len());
    assert_eq!(v.transaction, case.hex);
}
