//! Canonical wire encoding, consumed from the bitcoin crate: hashing of
//! previous-output ids, hex serialization and deserialization. The round-trip
//! self-check is verified code; the codec itself is reached through trusted
//! wrappers whose results are named, never restated.

use vstd::prelude::*;

use crate::tx::{tx_eq, Tx, TxInput, TxOutput, TxView};
use bitcoin::absolute::LockTime;
use bitcoin::consensus::encode::{deserialize_hex, serialize_hex};
use bitcoin::hashes::Hash as _;
use bitcoin::transaction::Version;
use bitcoin::{Amount, OutPoint, ScriptBuf, Sequence, Transaction, TxIn, TxOut, Txid, Witness};

verus! {

/// The double SHA-256 digest the bitcoin crate computes over a preimage.
pub uninterp spec fn txid_digest(preimage: Seq<u8>) -> Seq<u8>;

/// The canonical hex wire form of a transaction.
pub uninterp spec fn wire_hex(t: TxView) -> Seq<char>;

/// What the canonical decoder makes of a hex string: the decoded
/// transaction, or nothing when the string does not parse.
pub uninterp spec fn decoded_tx(h: Seq<char>) -> Option<TxView>;

/// Every previous-output id of the transaction is a 32-byte digest.
pub open spec fn txids_sized(t: TxView) -> bool {
    forall|k: int| 0 <= k < t.inputs.len() ==> (#[trigger] t.inputs[k]).prev_txid.len() == 32
}

/// Relies on `bitcoin::Txid::hash` (double SHA-256): a 32-byte digest that
/// depends on the preimage bytes alone.
#[verifier::external_body]
pub(crate) fn txid_of_preimage(preimage: &Vec<u8>) -> (h: Vec<u8>)
    ensures
        h@ == txid_digest(preimage@),
        h@.len() == 32,
{
    Txid::hash(preimage.as_slice()).to_byte_array().to_vec()
}

/// Relies on `bitcoin::consensus::encode::serialize_hex`: the canonical hex
/// encoding of a transaction, a function of its fields alone.
#[verifier::external_body]
fn encode_tx_hex(t: &Tx) -> (r: String)
    requires
        txids_sized(t@),
    ensures
        r@ == wire_hex(t@),
{
    let input = t.inputs.iter().map(|i| TxIn {
        previous_output: OutPoint { txid: Txid::from_slice(&i.prev_txid).expect("txid"), vout: i.prev_vout },
        script_sig: ScriptBuf::from_bytes(i.script_sig.clone()),
        sequence: Sequence(i.sequence),
        witness: Witness::from_slice(&i.witness),
    }).collect();
    let output = t.outputs.iter().map(|o| TxOut {
        value: Amount::from_sat(o.value),
        script_pubkey: ScriptBuf::from_bytes(o.script_pubkey.clone()),
    }).collect();
    let version = Version(t.version);
    let lock_time = LockTime::from_consensus(t.lock_time);
    serialize_hex(&Transaction { version, lock_time, input, output })
}

/// Relies on `bitcoin::consensus::encode::deserialize_hex`: parses the
/// canonical hex form back into a transaction, or fails; the outcome is a
/// function of the string alone.
#[verifier::external_body]
fn decode_tx_hex(h: &str) -> (r: Option<Tx>)
    ensures
        match r {
            Some(t) => decoded_tx(h@) == Some(t@),
            None => decoded_tx(h@) is None,
        },
{
    let Ok(tx) = deserialize_hex::<Transaction>(h) else { return None };
    let inputs = tx.input.iter().map(|i| TxInput {
        prev_txid: i.previous_output.txid.to_byte_array().to_vec(),
        prev_vout: i.previous_output.vout,
        script_sig: i.script_sig.as_bytes().to_vec(),
        sequence: i.sequence.0,
        witness: i.witness.iter().map(|w| w.to_vec()).collect(),
    }).collect();
    let outputs = tx.output.iter().map(|o| TxOutput {
        value: o.value.to_sat(),
        script_pubkey: o.script_pubkey.as_bytes().to_vec(),
    }).collect();
    Some(Tx { version: tx.version.0, lock_time: tx.lock_time.to_consensus_u32(), inputs, outputs })
}

/// Encode a transaction to its canonical hex form and check that decoding
/// yields the same structure. Returns the hex exactly when the round trip
/// holds; the check runs for every transaction before it is accepted.
pub fn encode_checked(t: &Tx) -> (r: Option<String>)
    requires
        txids_sized(t@),
    ensures
        match r {
            Some(h) => h@ == wire_hex(t@) && decoded_tx(wire_hex(t@)) == Some(t@),
            None => decoded_tx(wire_hex(t@)) != Some(t@),
        },
{
    let hex = encode_tx_hex(t);
    match decode_tx_hex(hex.as_str()) {
        Some(back) => {
            if tx_eq(t, &back) {
                Some(hex)
            } else {
                None
            }
        },
        None => None,
    }
}

} // verus!
