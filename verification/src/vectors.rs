//! Test-vector records: the per-transaction descriptor, the record pairing a
//! serialized transaction with its spend indices and oracle results, and the
//! pipeline step that prepares everything up to the oracle call.

use vstd::prelude::*;
use vstd::string::StringExecFns;

use crate::codec::{decoded_tx, encode_checked, txids_sized, wire_hex};
use crate::gen::{draw_spend_indices, random_tx};
use crate::tx::{tx_wf, Tx, TxView};
use rand_chacha::ChaCha20Rng;

verus! {

/// Counts and flags reported alongside each generated transaction.
#[derive(Debug, Clone, Copy)]
pub struct Desc {
    /// Number of inputs.
    pub inputs: u32,
    /// Number of outputs.
    pub outputs: u32,
    /// Whether at least one input carries a non-empty witness stack.
    pub witness: bool,
    /// Version as generated.
    pub version: i32,
    /// Whether at least one input carries a non-empty unlocking script.
    pub script_sigs: bool,
}

/// The descriptor reports exactly the transaction's counts and flags.
pub open spec fn desc_matches(d: Desc, t: TxView) -> bool {
    &&& d.inputs == t.inputs.len()
    &&& d.outputs == t.outputs.len()
    &&& d.version == t.version
    &&& d.witness == exists|k: int|
        0 <= k < t.inputs.len() && (#[trigger] t.inputs[k]).witness.len() > 0
    &&& d.script_sigs == exists|k: int|
        0 <= k < t.inputs.len() && (#[trigger] t.inputs[k]).script_sig.len() > 0
}

/// Compute the descriptor of a transaction.
pub fn describe(t: &Tx) -> (d: Desc)
    requires
        t@.inputs.len() <= u32::MAX,
        t@.outputs.len() <= u32::MAX,
    ensures
        desc_matches(d, t@),
{
    let mut witness = false;
    let mut script_sigs = false;
    let n = t.inputs.len();
    let mut i: usize = 0;
    while i < n
        invariant
            n == t@.inputs.len(),
            i <= n,
            witness == exists|k: int|
                0 <= k < i && (#[trigger] t@.inputs[k]).witness.len() > 0,
            script_sigs == exists|k: int|
                0 <= k < i && (#[trigger] t@.inputs[k]).script_sig.len() > 0,
        decreases n - i,
    {
        proof {
            assert(t@.inputs[i as int] == t.inputs@[i as int]@);
        }
        if t.inputs[i].witness.len() > 0 {
            witness = true;
        }
        if t.inputs[i].script_sig.len() > 0 {
            script_sigs = true;
        }
        i += 1;
    }
    Desc {
        inputs: t.inputs.len() as u32,
        outputs: t.outputs.len() as u32,
        witness,
        version: t.version,
        script_sigs,
    }
}

/// One test-vector record: a hex transaction, the spend indices queried, the
/// oracle's hash for each index (the two lists run in parallel), and the
/// descriptor.
pub struct CtvTestVector {
    /// Canonical hex encoding of the transaction.
    pub transaction: String,
    /// Spend indices the oracle was queried at.
    pub spend_index: Vec<u32>,
    /// One oracle hash per spend index.
    pub result: Vec<String>,
    /// Descriptor of the generated transaction.
    pub desc: Desc,
}

/// The spend indices and the oracle results run in parallel.
pub open spec fn vector_wf(v: CtvTestVector) -> bool {
    v.spend_index@.len() == v.result@.len()
}

/// One entry of the output list: either the leading documentation line that
/// describes the record shape, or a test-vector record.
pub enum CtvTestVectorEntry {
    /// A test-vector record.
    TestVector(CtvTestVector),
    /// The fixed documentation string.
    Documentation(String),
}

/// The fixed first entry of every output list.
pub open spec fn doc_line() -> Seq<char> {
    "{\"hex_tx\":string (hex tx), \"spend_index\":[number], \"result\": [string (hex hash)]}"@
}

/// Build the documentation entry that leads the output list.
pub fn documentation_entry() -> (e: CtvTestVectorEntry)
    ensures
        e matches CtvTestVectorEntry::Documentation(s) && s@ == doc_line(),
{
    let s = String::from_str(
        "{\"hex_tx\":string (hex tx), \"spend_index\":[number], \"result\": [string (hex hash)]}",
    );
    CtvTestVectorEntry::Documentation(s)
}

/// Assemble one record; the caller hands one oracle result per spend index.
pub fn make_test_vector(transaction: String, spend_index: Vec<u32>, result: Vec<String>, desc: Desc)
    -> (v: CtvTestVector)
    requires
        spend_index@.len() == result@.len(),
    ensures
        vector_wf(v),
        v.transaction == transaction,
        v.spend_index == spend_index,
        v.result == result,
        v.desc == desc,
{
    CtvTestVector { transaction, spend_index, result, desc }
}

/// Everything one oracle round needs: the generated transaction, its checked
/// hex form, the spend indices, and the descriptor.
pub struct PreparedCase {
    /// The generated transaction.
    pub tx: Tx,
    /// Its canonical hex encoding, already round-trip checked.
    pub hex: String,
    /// The four spend indices to query.
    pub spend_index: Vec<u32>,
    /// The descriptor of the transaction.
    pub desc: Desc,
}

/// Generate one transaction and prepare its test-vector case: draw the
/// structure, draw the spend indices, encode and run the round-trip
/// self-check, and compute the descriptor. Returns nothing when the
/// self-check fails, which the caller must treat as fatal.
pub fn prepare_case(rng: &mut ChaCha20Rng) -> (r: Option<PreparedCase>)
    ensures
        r matches Some(c) ==> {
            &&& tx_wf(c.tx@)
            &&& c.hex@ == wire_hex(c.tx@)
            &&& decoded_tx(wire_hex(c.tx@)) == Some(c.tx@)
            &&& desc_matches(c.desc, c.tx@)
            &&& c.spend_index@.len() == 4
            &&& c.spend_index@[0] == 0
            &&& c.spend_index@[1] == 1
        },
        r is None ==> exists|t: TxView| tx_wf(t) && decoded_tx(wire_hex(t)) != Some(t),
{
    let tx = random_tx(rng);
    let spend_index = draw_spend_indices(rng);
    proof {
        assert(txids_sized(tx@));
    }
    match encode_checked(&tx) {
        Some(hex) => {
            let desc = describe(&tx);
            Some(PreparedCase { tx, hex, spend_index, desc })
        },
        None => {
            proof {
                assert(tx_wf(tx@) && decoded_tx(wire_hex(tx@)) != Some(tx@));
            }
            None
        },
    }
}

} // verus!
