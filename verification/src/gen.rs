//! The randomized transaction structure generator and its byte-budget
//! allocator: every draw is bounded, the budget never goes negative, and the
//! emitted payload never exceeds the budget it was drawn from.

use vstd::prelude::*;

use crate::codec::txid_of_preimage;
use crate::stream::{stream_bytes, stream_next_u32, stream_next_u64};
use crate::tx::{
    input_wf, inputs_payload, lemma_inputs_payload_push,
    lemma_outputs_payload_push, lemma_witness_payload_push, output_wf, outputs_payload,
    tx_payload, tx_wf, witness_payload, Tx, TxInput, TxOutput, INPUT_COUNT_MAX,
    MAX_MONEY_SATOSHIS, OUTPOINT_BYTES, OUTPUT_COUNT_MAX, RANDOM_BYTES_MAX, SCRIPT_LEN_MAX,
    WITNESS_ITEMS_MAX, WITNESS_ITEM_LEN_MAX,
};
use rand_chacha::ChaCha20Rng;

verus! {

/// Reduce a drawn 64-bit word into the inclusive range `[lo, hi]` by the
/// modulo method: `lo + (x mod (hi - lo + 1))`.
pub fn pick_in_range(x: u64, lo: usize, hi: usize) -> (r: usize)
    requires
        lo <= hi,
        hi - lo < usize::MAX,
    ensures
        r == lo + (x as int % (hi - lo + 1)),
        lo <= r <= hi,
{
    let size: u64 = (hi - lo + 1) as u64;
    let rem: u64 = x % size;
    proof {
        assert(0 <= x as int % (size as int) < size as int) by {
            vstd::arithmetic::div_mod::lemma_mod_bound(x as int, size as int);
        }
    }
    lo + (rem as usize)
}

/// Draw a random integer in the inclusive range `[lo, hi]`.
pub fn random_range(rng: &mut ChaCha20Rng, lo: usize, hi: usize) -> (r: usize)
    requires
        lo <= hi,
        hi - lo < usize::MAX,
    ensures
        lo <= r <= hi,
{
    let x = stream_next_u64(rng);
    pick_in_range(x, lo, hi)
}

/// Reduce a drawn candidate length so it can never exceed the remaining
/// budget: `candidate mod (budget + 1)`.
pub fn cap_to_budget(candidate: usize, budget: usize) -> (len: usize)
    requires
        budget < usize::MAX,
    ensures
        len == candidate as int % (budget + 1),
        len <= candidate,
        len <= budget,
{
    proof {
        vstd::arithmetic::div_mod::lemma_mod_bound(candidate as int, (budget + 1) as int);
        vstd::arithmetic::div_mod::lemma_mod_decreases(candidate as nat, (budget + 1) as nat);
    }
    candidate % (budget + 1)
}

/// Draw a random number of random bytes, charged against `max_bytes`: the
/// length is a candidate from `[lo, hi]` reduced modulo `budget + 1`, so it
/// never exceeds the remaining budget (and a budget covering the whole range
/// leaves the candidate untouched); the budget shrinks by exactly the
/// emitted length; an exhausted budget yields an empty draw without
/// consuming the stream.
pub fn random_bytes_lt(rng: &mut ChaCha20Rng, lo: usize, hi: usize, max_bytes: &mut usize) -> (r:
    Vec<u8>)
    requires
        lo <= hi,
        hi - lo < usize::MAX,
        *old(max_bytes) < usize::MAX,
    ensures
        r@.len() <= *old(max_bytes),
        r@.len() <= hi,
        *final(max_bytes) == *old(max_bytes) - r@.len(),
        *final(max_bytes) <= *old(max_bytes),
        *old(max_bytes) == 0 ==> r@.len() == 0,
        *old(max_bytes) >= 1 && hi <= *old(max_bytes) ==> lo <= r@.len(),
        *old(max_bytes) >= 1 ==> exists|c: int|
            lo <= c <= hi && r@.len() == #[trigger] (c % (*old(max_bytes) + 1)),
{
    if *max_bytes < 1 {
        return Vec::new();
    }
    let ghost m0: usize = *max_bytes;
    let candidate = random_range(rng, lo, hi);
    let length = cap_to_budget(candidate, *max_bytes);
    proof {
        assert(exists|c: int| lo <= c <= hi && length == #[trigger] (c % (m0 + 1))) by {
            assert(lo <= candidate <= hi && length == candidate as int % (m0 + 1));
        }
        if hi <= m0 {
            vstd::arithmetic::div_mod::lemma_small_mod(candidate as nat, (m0 + 1) as nat);
        }
    }
    *max_bytes = *max_bytes - length;
    stream_bytes(rng, length)
}

/// Draw one witness item, charged against the budget.
pub fn random_witness_item(rng: &mut ChaCha20Rng, max_bytes: &mut usize) -> (r: Vec<u8>)
    requires
        *old(max_bytes) < usize::MAX,
    ensures
        r@.len() <= *old(max_bytes),
        r@.len() <= WITNESS_ITEM_LEN_MAX,
        *final(max_bytes) == *old(max_bytes) - r@.len(),
        *final(max_bytes) <= *old(max_bytes),
        *old(max_bytes) == 0 ==> r@.len() == 0,
        *old(max_bytes) >= 1 ==> exists|c: int|
            0 <= c <= WITNESS_ITEM_LEN_MAX && r@.len() == #[trigger] (c % (*old(max_bytes)
                + 1)),
{
    random_bytes_lt(rng, 0, WITNESS_ITEM_LEN_MAX, max_bytes)
}

/// The six top-level draws that shape one transaction.
#[derive(Debug, Clone, Copy)]
pub struct GenParams {
    /// Raw 32-bit draw reinterpreted as a signed version.
    pub version: i32,
    /// Raw 32-bit lock time.
    pub lock_time: u32,
    /// Drawn number of inputs, in `[1, 129]`.
    pub input_count: usize,
    /// Drawn number of outputs, in `[0, 129]`.
    pub output_count: usize,
    /// Drawn global byte budget, in `[0, 10000]`.
    pub random_bytes_budget: usize,
    /// Whether every input of this transaction may carry a witness stack.
    pub has_witness: bool,
}

/// Bounds that `draw_params` guarantees.
pub open spec fn params_wf(p: GenParams) -> bool {
    &&& 1 <= p.input_count <= INPUT_COUNT_MAX
    &&& p.output_count <= OUTPUT_COUNT_MAX
    &&& p.random_bytes_budget <= RANDOM_BYTES_MAX
}

/// Draw the top-level parameters of one transaction, in the fixed order:
/// version, lock time, input count, output count, byte budget, witness flag.
pub fn draw_params(rng: &mut ChaCha20Rng) -> (p: GenParams)
    ensures
        params_wf(p),
{
    let version = stream_next_u32(rng) as i32;
    let lock_time = stream_next_u32(rng);
    let input_count = random_range(rng, 1, INPUT_COUNT_MAX);
    let output_count = random_range(rng, 0, OUTPUT_COUNT_MAX);
    let random_bytes_budget = random_range(rng, 0, RANDOM_BYTES_MAX);
    let has_witness = stream_next_u32(rng) % 2 == 1;
    GenParams { version, lock_time, input_count, output_count, random_bytes_budget, has_witness }
}

/// Build one transaction from drawn parameters, charging every
/// variable-length field against `budget`. The budget is non-increasing,
/// the total emitted payload never exceeds what was spent, and an input or
/// output list shorter than its drawn count means the budget ran dry.
#[verifier::loop_isolation(false)]
pub fn random_tx_core(rng: &mut ChaCha20Rng, p: &GenParams, budget: &mut usize) -> (t: Tx)
    requires
        1 <= p.input_count <= INPUT_COUNT_MAX,
        p.output_count <= OUTPUT_COUNT_MAX,
        *old(budget) < usize::MAX,
    ensures
        t@.version == p.version,
        t@.lock_time == p.lock_time,
        1 <= t@.inputs.len() <= p.input_count,
        t@.outputs.len() <= p.output_count,
        forall|k: int| 0 <= k < t@.inputs.len() ==> input_wf(#[trigger] t@.inputs[k]),
        forall|k: int| 0 <= k < t@.outputs.len() ==> output_wf(#[trigger] t@.outputs[k]),
        !p.has_witness ==> forall|k: int|
            0 <= k < t@.inputs.len() ==> (#[trigger] t@.inputs[k]).witness.len() == 0
                && t@.inputs[k].script_sig.len() == 0,
        *final(budget) <= *old(budget),
        tx_payload(t@) + *final(budget) <= *old(budget),
        *old(budget) <= OUTPOINT_BYTES * t@.inputs.len() + tx_payload(t@) + *final(budget),
        *old(budget) == 0 ==> tx_payload(t@) == 0,
        *old(budget) == 0 ==> t@.inputs.len() == 1 && t@.outputs.len() == (
        if p.output_count == 0 {
            0int
        } else {
            1int
        }),
        t@.inputs.len() < p.input_count ==> *final(budget) == 0,
        t@.outputs.len() < p.output_count ==> *final(budget) == 0,
{
    let ghost b0: usize = *budget;

    let mut inputs: Vec<TxInput> = Vec::new();
    let mut i: usize = 0;
    let mut stopped = false;
    while i < p.input_count && !stopped
        invariant
            i <= p.input_count,
            inputs.deep_view().len() == i,
            *budget <= b0,
            inputs_payload(inputs.deep_view()) + *budget <= b0,
            b0 <= OUTPOINT_BYTES * i + inputs_payload(inputs.deep_view()) + *budget,
            stopped ==> *budget == 0,
            i == 0 ==> !stopped,
            b0 == 0 ==> i <= 1,
            b0 == 0 ==> (stopped <==> i >= 1),
            forall|k: int| 0 <= k < i ==> input_wf(#[trigger] inputs.deep_view()[k]),
            !p.has_witness ==> forall|k: int|
                0 <= k < i ==> (#[trigger] inputs.deep_view()[k]).witness.len() == 0
                    && inputs.deep_view()[k].script_sig.len() == 0,
        decreases p.input_count - i,
    {
        let preimage = stream_bytes(rng, 32);
        let prev_txid = txid_of_preimage(&preimage);
        let prev_vout = stream_next_u32(rng);

        // Charge the budget for the previous-output reference itself
        // (accounting only: those 36 bytes were drawn above).
        if *budget >= OUTPOINT_BYTES {
            *budget = *budget - OUTPOINT_BYTES;
        } else {
            *budget = 0;
        }

        let mut witness: Vec<Vec<u8>> = Vec::new();
        if p.has_witness {
            let witness_item_count = random_range(rng, 0, WITNESS_ITEMS_MAX);
            let mut j: usize = 0;
            let mut wstopped = false;
            while j < witness_item_count && !wstopped
                invariant
                    j <= witness_item_count,
                    witness.deep_view().len() == j,
                    *budget <= b0,
                    inputs_payload(inputs.deep_view()) + witness_payload(witness.deep_view())
                        + *budget <= b0,
                    b0 <= OUTPOINT_BYTES * (i + 1) + inputs_payload(inputs.deep_view())
                        + witness_payload(witness.deep_view()) + *budget,
                    wstopped ==> *budget == 0,
                    forall|k: int|
                        0 <= k < j ==> (#[trigger] witness.deep_view()[k]).len()
                            <= WITNESS_ITEM_LEN_MAX,
                decreases witness_item_count - j,
            {
                let ghost wdv = witness.deep_view();
                let item = random_witness_item(rng, budget);
                let ghost item_dv = item.deep_view();
                witness.push(item);
                proof {
                    assert(witness.deep_view() =~= wdv.push(item_dv));
                    lemma_witness_payload_push(wdv, item_dv);
                }
                j += 1;
                if *budget < 1 {
                    wstopped = true;
                }
            }
        }

        let script_sig: Vec<u8> = if p.has_witness {
            random_bytes_lt(rng, 0, SCRIPT_LEN_MAX, budget)
        } else {
            Vec::new()
        };

        let sequence = stream_next_u32(rng);
        let ghost idv = inputs.deep_view();
        let input = TxInput { prev_txid, prev_vout, script_sig, sequence, witness };
        let ghost input_v = input.deep_view();
        inputs.push(input);
        proof {
            assert(inputs.deep_view() =~= idv.push(input_v));
            lemma_inputs_payload_push(idv, input_v);
        }
        i += 1;
        if *budget < 1 {
            stopped = true;
        }
    }
    let ghost b1: usize = *budget;
    proof {
        assert(i == p.input_count || stopped);
        assert(inputs.deep_view().len() >= 1);
    }

    let mut outputs: Vec<TxOutput> = Vec::new();
    let mut n: usize = 0;
    let mut ostopped = false;
    while n < p.output_count && !ostopped
        invariant
            n <= p.output_count,
            outputs.deep_view().len() == n,
            *budget <= b1,
            outputs_payload(outputs.deep_view()) + *budget <= b1,
            b1 <= outputs_payload(outputs.deep_view()) + *budget,
            ostopped ==> *budget == 0,
            b1 == 0 ==> n <= 1,
            b1 == 0 ==> (ostopped <==> n >= 1),
            forall|k: int| 0 <= k < n ==> output_wf(#[trigger] outputs.deep_view()[k]),
        decreases p.output_count - n,
    {
        let value_raw = stream_next_u64(rng);
        let value = value_raw % (MAX_MONEY_SATOSHIS + 1);
        let script_pubkey = random_bytes_lt(rng, 0, SCRIPT_LEN_MAX, budget);
        let ghost odv = outputs.deep_view();
        let out = TxOutput { value, script_pubkey };
        let ghost out_v = out.deep_view();
        outputs.push(out);
        proof {
            assert(outputs.deep_view() =~= odv.push(out_v));
            lemma_outputs_payload_push(odv, out_v);
        }
        n += 1;
        if *budget < 1 {
            ostopped = true;
        }
    }

    let t = Tx { version: p.version, lock_time: p.lock_time, inputs, outputs };
    proof {
        assert(tx_payload(t@) + *budget <= b0);
        assert(b0 <= OUTPOINT_BYTES * t@.inputs.len() + tx_payload(t@) + *budget);
        if b0 == 0 {
            assert(t@.inputs.len() == 1);
            assert(t@.outputs.len() == (
            if p.output_count == 0 {
                0int
            } else {
                1int
            }));
        }
    }
    t
}

/// Generate one random transaction: draw the top-level parameters, then
/// build the structure under the drawn byte budget, which caps the total
/// random payload of the whole transaction.
pub fn random_tx(rng: &mut ChaCha20Rng) -> (t: Tx)
    ensures
        tx_wf(t@),
        tx_payload(t@) <= RANDOM_BYTES_MAX,
{
    let p = draw_params(rng);
    let mut budget = p.random_bytes_budget;
    random_tx_core(rng, &p, &mut budget)
}

/// Draw the spend indices for one test vector: always 0 and 1, then two
/// unconstrained 32-bit draws.
pub fn draw_spend_indices(rng: &mut ChaCha20Rng) -> (v: Vec<u32>)
    ensures
        v@.len() == 4,
        v@[0] == 0,
        v@[1] == 1,
{
    let mut v: Vec<u32> = Vec::new();
    v.push(0);
    v.push(1);
    v.push(stream_next_u32(rng));
    v.push(stream_next_u32(rng));
    v
}

} // verus!
