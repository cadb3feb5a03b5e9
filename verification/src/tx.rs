//! The transaction structure the generator produces, its mathematical view,
//! and the spec functions that the generator's contracts are stated over.

use vstd::prelude::*;

verus! {

/// Largest number of inputs a generated transaction may have.
pub const INPUT_COUNT_MAX: usize = 129;
/// Largest number of outputs a generated transaction may have.
pub const OUTPUT_COUNT_MAX: usize = 129;
/// Largest length of an unlocking or locking script.
pub const SCRIPT_LEN_MAX: usize = 129;
/// Largest number of items in one input's witness stack.
pub const WITNESS_ITEMS_MAX: usize = 129;
/// Largest length of a single witness item.
pub const WITNESS_ITEM_LEN_MAX: usize = 520;
/// Largest byte budget one transaction may draw.
pub const RANDOM_BYTES_MAX: usize = 10_000;
/// Largest amount of satoshis a transaction output may carry.
pub const MAX_MONEY_SATOSHIS: u64 = 2_100_000_000_000_000;
/// Bytes charged against the budget for each input's previous-output
/// reference (32-byte txid plus 4-byte index).
pub const OUTPOINT_BYTES: usize = 36;

/// One transaction input.
#[derive(Debug)]
pub struct TxInput {
    /// Transaction id of the previous output, 32 bytes.
    pub prev_txid: Vec<u8>,
    /// Index of the previous output.
    pub prev_vout: u32,
    /// Unlocking script.
    pub script_sig: Vec<u8>,
    /// Sequence number.
    pub sequence: u32,
    /// Witness stack: an ordered list of byte strings.
    pub witness: Vec<Vec<u8>>,
}

/// One transaction output.
#[derive(Debug)]
pub struct TxOutput {
    /// Amount in satoshis.
    pub value: u64,
    /// Locking script.
    pub script_pubkey: Vec<u8>,
}

/// A complete transaction.
#[derive(Debug)]
pub struct Tx {
    /// Version, reinterpreted from a raw 32-bit draw; non-standard values allowed.
    pub version: i32,
    /// Lock time, consensus representation.
    pub lock_time: u32,
    /// Ordered inputs.
    pub inputs: Vec<TxInput>,
    /// Ordered outputs.
    pub outputs: Vec<TxOutput>,
}

/// Mathematical view of an input.
#[verifier::ext_equal]
pub ghost struct TxInputView {
    pub prev_txid: Seq<u8>,
    pub prev_vout: u32,
    pub script_sig: Seq<u8>,
    pub sequence: u32,
    pub witness: Seq<Seq<u8>>,
}

/// Mathematical view of an output.
#[verifier::ext_equal]
pub ghost struct TxOutputView {
    pub value: u64,
    pub script_pubkey: Seq<u8>,
}

/// Mathematical view of a transaction.
#[verifier::ext_equal]
pub ghost struct TxView {
    pub version: i32,
    pub lock_time: u32,
    pub inputs: Seq<TxInputView>,
    pub outputs: Seq<TxOutputView>,
}

impl View for TxInput {
    type V = TxInputView;

    open spec fn view(&self) -> TxInputView {
        TxInputView {
            prev_txid: self.prev_txid@,
            prev_vout: self.prev_vout,
            script_sig: self.script_sig@,
            sequence: self.sequence,
            witness: self.witness.deep_view(),
        }
    }
}

impl DeepView for TxInput {
    type V = TxInputView;

    open spec fn deep_view(&self) -> TxInputView {
        self.view()
    }
}

impl View for TxOutput {
    type V = TxOutputView;

    open spec fn view(&self) -> TxOutputView {
        TxOutputView { value: self.value, script_pubkey: self.script_pubkey@ }
    }
}

impl DeepView for TxOutput {
    type V = TxOutputView;

    open spec fn deep_view(&self) -> TxOutputView {
        self.view()
    }
}

impl View for Tx {
    type V = TxView;

    open spec fn view(&self) -> TxView {
        TxView {
            version: self.version,
            lock_time: self.lock_time,
            inputs: self.inputs.deep_view(),
            outputs: self.outputs.deep_view(),
        }
    }
}

/// What the generator guarantees of every input it emits.
pub open spec fn input_wf(i: TxInputView) -> bool {
    &&& i.prev_txid.len() == 32
    &&& i.script_sig.len() <= SCRIPT_LEN_MAX
    &&& i.witness.len() <= WITNESS_ITEMS_MAX
    &&& forall|k: int| 0 <= k < i.witness.len() ==> (#[trigger] i.witness[k]).len() <= WITNESS_ITEM_LEN_MAX
}

/// What the generator guarantees of every output it emits.
pub open spec fn output_wf(o: TxOutputView) -> bool {
    &&& o.value <= MAX_MONEY_SATOSHIS
    &&& o.script_pubkey.len() <= SCRIPT_LEN_MAX
}

/// What the generator guarantees of every transaction it emits.
pub open spec fn tx_wf(t: TxView) -> bool {
    &&& 1 <= t.inputs.len() <= INPUT_COUNT_MAX
    &&& t.outputs.len() <= OUTPUT_COUNT_MAX
    &&& forall|k: int| 0 <= k < t.inputs.len() ==> input_wf(#[trigger] t.inputs[k])
    &&& forall|k: int| 0 <= k < t.outputs.len() ==> output_wf(#[trigger] t.outputs[k])
}

/// Total length of the items of one witness stack.
pub open spec fn witness_payload(w: Seq<Seq<u8>>) -> nat
    decreases w.len(),
{
    if w.len() == 0 {
        0
    } else {
        w.first().len() + witness_payload(w.drop_first())
    }
}

/// Random payload bytes of one input: its unlocking script and witness stack.
pub open spec fn input_payload(i: TxInputView) -> nat {
    i.script_sig.len() + witness_payload(i.witness)
}

/// Random payload bytes of a sequence of inputs.
pub open spec fn inputs_payload(s: Seq<TxInputView>) -> nat
    decreases s.len(),
{
    if s.len() == 0 {
        0
    } else {
        input_payload(s.first()) + inputs_payload(s.drop_first())
    }
}

/// Random payload bytes of a sequence of outputs: their locking scripts.
pub open spec fn outputs_payload(s: Seq<TxOutputView>) -> nat
    decreases s.len(),
{
    if s.len() == 0 {
        0
    } else {
        s.first().script_pubkey.len() + outputs_payload(s.drop_first())
    }
}

/// Every variable-length byte the budget was charged for across one transaction.
pub open spec fn tx_payload(t: TxView) -> nat {
    inputs_payload(t.inputs) + outputs_payload(t.outputs)
}

pub proof fn lemma_witness_payload_push(w: Seq<Seq<u8>>, x: Seq<u8>)
    ensures
        witness_payload(w.push(x)) == witness_payload(w) + x.len(),
    decreases w.len(),
{
    if w.len() == 0 {
        assert(w.push(x).drop_first() =~= w);
    } else {
        assert(w.push(x).drop_first() =~= w.drop_first().push(x));
        lemma_witness_payload_push(w.drop_first(), x);
    }
}

pub proof fn lemma_inputs_payload_push(s: Seq<TxInputView>, i: TxInputView)
    ensures
        inputs_payload(s.push(i)) == inputs_payload(s) + input_payload(i),
    decreases s.len(),
{
    if s.len() == 0 {
        assert(s.push(i).drop_first() =~= s);
    } else {
        assert(s.push(i).drop_first() =~= s.drop_first().push(i));
        lemma_inputs_payload_push(s.drop_first(), i);
    }
}

pub proof fn lemma_outputs_payload_push(s: Seq<TxOutputView>, o: TxOutputView)
    ensures
        outputs_payload(s.push(o)) == outputs_payload(s) + o.script_pubkey.len(),
    decreases s.len(),
{
    if s.len() == 0 {
        assert(s.push(o).drop_first() =~= s);
    } else {
        assert(s.push(o).drop_first() =~= s.drop_first().push(o));
        lemma_outputs_payload_push(s.drop_first(), o);
    }
}

proof fn lemma_witness_payload_item(w: Seq<Seq<u8>>, k: int)
    requires
        0 <= k < w.len(),
    ensures
        w[k].len() <= witness_payload(w),
    decreases w.len(),
{
    if k > 0 {
        lemma_witness_payload_item(w.drop_first(), k - 1);
    }
}

proof fn lemma_inputs_payload_item(s: Seq<TxInputView>, k: int)
    requires
        0 <= k < s.len(),
    ensures
        input_payload(s[k]) <= inputs_payload(s),
    decreases s.len(),
{
    if k > 0 {
        lemma_inputs_payload_item(s.drop_first(), k - 1);
    }
}

proof fn lemma_outputs_payload_item(s: Seq<TxOutputView>, k: int)
    requires
        0 <= k < s.len(),
    ensures
        s[k].script_pubkey.len() <= outputs_payload(s),
    decreases s.len(),
{
    if k > 0 {
        lemma_outputs_payload_item(s.drop_first(), k - 1);
    }
}

/// When no payload byte was emitted at all, every variable-length field of
/// the transaction is empty: scripts, locking scripts, and each witness item.
pub proof fn lemma_zero_payload_all_empty(t: TxView)
    requires
        tx_payload(t) == 0,
    ensures
        forall|k: int| 0 <= k < t.inputs.len() ==> (#[trigger] t.inputs[k]).script_sig.len() == 0,
        forall|k: int, j: int|
            0 <= k < t.inputs.len() && 0 <= j < t.inputs[k].witness.len()
                ==> (#[trigger] t.inputs[k].witness[j]).len() == 0,
        forall|k: int| 0 <= k < t.outputs.len() ==> (#[trigger] t.outputs[k]).script_pubkey.len() == 0,
{
    assert forall|k: int| 0 <= k < t.inputs.len() implies (#[trigger] t.inputs[k]).script_sig.len()
        == 0 by {
        lemma_inputs_payload_item(t.inputs, k);
    }
    assert forall|k: int, j: int|
        0 <= k < t.inputs.len() && 0 <= j < t.inputs[k].witness.len() implies (#[trigger] t.inputs[k].witness[j]).len() == 0 by {
        lemma_inputs_payload_item(t.inputs, k);
        lemma_witness_payload_item(t.inputs[k].witness, j);
    }
    assert forall|k: int| 0 <= k < t.outputs.len() implies (#[trigger] t.outputs[k]).script_pubkey.len() == 0 by {
        lemma_outputs_payload_item(t.outputs, k);
    }
}

/// Byte-string equality.
pub fn eq_bytes(a: &Vec<u8>, b: &Vec<u8>) -> (r: bool)
    ensures
        r == (a@ == b@),
{
    if a.len() != b.len() {
        return false;
    }
    let n = a.len();
    let mut i: usize = 0;
    while i < n
        invariant
            n == a@.len() == b@.len(),
            i <= n,
            forall|j: int| 0 <= j < i ==> a@[j] == b@[j],
        decreases n - i,
    {
        if a[i] != b[i] {
            return false;
        }
        i += 1;
    }
    proof {
        assert(a@ =~= b@);
    }
    true
}

/// Equality of two witness stacks.
pub fn eq_witness(a: &Vec<Vec<u8>>, b: &Vec<Vec<u8>>) -> (r: bool)
    ensures
        r == (a.deep_view() == b.deep_view()),
{
    if a.len() != b.len() {
        proof {
            assert(a.deep_view().len() != b.deep_view().len());
        }
        return false;
    }
    let n = a.len();
    let mut i: usize = 0;
    while i < n
        invariant
            n == a@.len() == b@.len(),
            i <= n,
            forall|j: int| 0 <= j < i ==> a.deep_view()[j] == b.deep_view()[j],
        decreases n - i,
    {
        if !eq_bytes(&a[i], &b[i]) {
            proof {
                assert(a@[i as int].deep_view() =~= a@[i as int]@);
                assert(b@[i as int].deep_view() =~= b@[i as int]@);
                assert(a.deep_view()[i as int] != b.deep_view()[i as int]);
            }
            return false;
        }
        i += 1;
    }
    proof {
        assert(a.deep_view() =~= b.deep_view());
    }
    true
}

/// Structural equality of two inputs.
pub fn eq_input(a: &TxInput, b: &TxInput) -> (r: bool)
    ensures
        r == (a@ == b@),
{
    let r = eq_bytes(&a.prev_txid, &b.prev_txid) && a.prev_vout == b.prev_vout
        && eq_bytes(&a.script_sig, &b.script_sig) && a.sequence == b.sequence
        && eq_witness(&a.witness, &b.witness);
    proof {
        if r {
            assert(a@ =~= b@);
        }
    }
    r
}

/// Structural equality of two outputs.
pub fn eq_output(a: &TxOutput, b: &TxOutput) -> (r: bool)
    ensures
        r == (a@ == b@),
{
    let r = a.value == b.value && eq_bytes(&a.script_pubkey, &b.script_pubkey);
    proof {
        if r {
            assert(a@ =~= b@);
        }
    }
    r
}

/// Structural equality of two transactions, field for field.
pub fn tx_eq(a: &Tx, b: &Tx) -> (r: bool)
    ensures
        r == (a@ == b@),
{
    if a.version != b.version || a.lock_time != b.lock_time {
        proof {
            assert(a@.version == a.version && a@.lock_time == a.lock_time);
            assert(b@.version == b.version && b@.lock_time == b.lock_time);
        }
        return false;
    }
    if a.inputs.len() != b.inputs.len() || a.outputs.len() != b.outputs.len() {
        proof {
            assert(a@.inputs.len() == a.inputs@.len() && a@.outputs.len() == a.outputs@.len());
            assert(b@.inputs.len() == b.inputs@.len() && b@.outputs.len() == b.outputs@.len());
        }
        return false;
    }
    let n = a.inputs.len();
    let mut i: usize = 0;
    while i < n
        invariant
            n == a.inputs@.len() == b.inputs@.len(),
            i <= n,
            forall|j: int| 0 <= j < i ==> a.inputs.deep_view()[j] == b.inputs.deep_view()[j],
        decreases n - i,
    {
        if !eq_input(&a.inputs[i], &b.inputs[i]) {
            proof {
                assert(a@.inputs[i as int] != b@.inputs[i as int]);
            }
            return false;
        }
        i += 1;
    }
    let m = a.outputs.len();
    let mut k: usize = 0;
    while k < m
        invariant
            m == a.outputs@.len() == b.outputs@.len(),
            k <= m,
            forall|j: int| 0 <= j < k ==> a.outputs.deep_view()[j] == b.outputs.deep_view()[j],
        decreases m - k,
    {
        if !eq_output(&a.outputs[k], &b.outputs[k]) {
            proof {
                assert(a@.outputs[k as int] != b@.outputs[k as int]);
            }
            return false;
        }
        k += 1;
    }
    proof {
        assert(a.inputs.deep_view() =~= b.inputs.deep_view());
        assert(a.outputs.deep_view() =~= b.outputs.deep_view());
        assert(a@ =~= b@);
    }
    true
}

} // verus!
