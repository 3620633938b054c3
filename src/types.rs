//! Transaction-level values that a PSBT refers to, held as plain data.
use vstd::prelude::*;

use bitcoin::hashes::Hash as _;
use bitcoin::{absolute, transaction, Amount, ScriptBuf, Sequence, Witness};

use crate::bytes::copy_bytes;

verus! {

broadcast use vstd::array::group_array_axioms, crate::bytes::lemma_bytes_deep_view, crate::bytes::lemma_array_deep_view;

/// Lock-time values below this are block heights; values at or above it are Unix times.
pub const LOCK_TIME_THRESHOLD: u32 = 500_000_000;

/// The final sequence number, assumed for an input that does not set one.
pub const SEQUENCE_FINAL: u32 = 0xffff_ffff;

/// A transaction id: the double SHA-256 of the transaction without its witness data.
pub type Txid = [u8; 32];

/// A reference to an output of an earlier transaction.
#[derive(Clone, Copy, Debug, PartialEq, Eq)]
pub struct OutPoint {
    /// The id of the transaction that holds the output.
    pub txid: Txid,
    /// The output's index in that transaction.
    pub vout: u32,
}

/// A transaction input.
#[derive(Clone, Debug, PartialEq, Eq)]
pub struct TxIn {
    /// The output that is spent.
    pub previous_output: OutPoint,
    /// The unlocking script.
    pub script_sig: Vec<u8>,
    /// The sequence number.
    pub sequence: u32,
    /// The witness stack.
    pub witness: Vec<Vec<u8>>,
}

/// A transaction output.
#[derive(Clone, Debug, PartialEq, Eq)]
pub struct TxOut {
    /// The amount, in satoshis.
    pub value: u64,
    /// The locking script.
    pub script_pubkey: Vec<u8>,
}

/// A bitcoin transaction.
#[derive(Clone, Debug, PartialEq, Eq)]
pub struct Transaction {
    /// The transaction format version.
    pub version: i32,
    /// The lock time, in its consensus encoding.
    pub lock_time: u32,
    /// The inputs.
    pub input: Vec<TxIn>,
    /// The outputs.
    pub output: Vec<TxOut>,
}

/// An outpoint seen as plain values.
pub struct OutPointView {
    pub txid: Seq<u8>,
    pub vout: u32,
}

impl DeepView for OutPoint {
    type V = OutPointView;

    open spec fn deep_view(&self) -> OutPointView {
        OutPointView { txid: self.txid.deep_view(), vout: self.vout }
    }
}

/// A transaction input seen as plain values.
pub struct TxInView {
    pub previous_output: OutPointView,
    pub script_sig: Seq<u8>,
    pub sequence: u32,
    pub witness: Seq<Seq<u8>>,
}

/// A transaction output seen as plain values.
pub struct TxOutView {
    pub value: u64,
    pub script_pubkey: Seq<u8>,
}

/// A transaction seen as plain values.
pub struct TransactionView {
    pub version: i32,
    pub lock_time: u32,
    pub input: Seq<TxInView>,
    pub output: Seq<TxOutView>,
}

impl DeepView for TxIn {
    type V = TxInView;

    open spec fn deep_view(&self) -> TxInView {
        TxInView {
            previous_output: self.previous_output.deep_view(),
            script_sig: self.script_sig@,
            sequence: self.sequence,
            witness: self.witness.deep_view(),
        }
    }
}

impl DeepView for TxOut {
    type V = TxOutView;

    open spec fn deep_view(&self) -> TxOutView {
        TxOutView { value: self.value, script_pubkey: self.script_pubkey@ }
    }
}

impl DeepView for Transaction {
    type V = TransactionView;

    open spec fn deep_view(&self) -> TransactionView {
        TransactionView {
            version: self.version,
            lock_time: self.lock_time,
            input: self.input.deep_view(),
            output: self.output.deep_view(),
        }
    }
}

impl TxOut {
    /// A copy of this output.
    pub fn duplicate(&self) -> (r: TxOut)
        ensures
            r.deep_view() == self.deep_view(),
    {
        TxOut { value: self.value, script_pubkey: copy_bytes(&self.script_pubkey) }
    }
}

impl TxIn {
    /// A copy of this input.
    pub fn duplicate(&self) -> (r: TxIn)
        ensures
            r.deep_view() == self.deep_view(),
    {
        let mut witness: Vec<Vec<u8>> = Vec::new();
        let mut i: usize = 0;
        while i < self.witness.len()
            invariant
                0 <= i <= self.witness@.len(),
                witness@.len() == i,
                forall|j: int| 0 <= j < i ==> (#[trigger] witness@[j])@ == self.witness@[j]@,
            decreases self.witness@.len() - i,
        {
            witness.push(copy_bytes(&self.witness[i]));
            i = i + 1;
        }
        let r = TxIn {
            previous_output: self.previous_output,
            script_sig: copy_bytes(&self.script_sig),
            sequence: self.sequence,
            witness,
        };
        assert(r.witness.deep_view() =~= self.witness.deep_view()) by {
            assert forall|j: int| 0 <= j < i implies (#[trigger] r.witness@[j]).deep_view()
                == self.witness@[j].deep_view() by {
                assert(r.witness@[j].deep_view() =~= self.witness@[j].deep_view());
            }
        }
        assert(r.script_sig@ == self.script_sig@);
        r
    }
}

impl Transaction {
    /// A copy of this transaction.
    pub fn duplicate(&self) -> (r: Transaction)
        ensures
            r.deep_view() == self.deep_view(),
    {
        let mut input: Vec<TxIn> = Vec::new();
        let mut i: usize = 0;
        while i < self.input.len()
            invariant
                0 <= i <= self.input@.len(),
                input@.len() == i,
                forall|j: int| 0 <= j < i ==> (#[trigger] input@[j]).deep_view() == self.input@[j].deep_view(),
            decreases self.input@.len() - i,
        {
            input.push(self.input[i].duplicate());
            i = i + 1;
        }
        let mut output: Vec<TxOut> = Vec::new();
        let mut i: usize = 0;
        while i < self.output.len()
            invariant
                0 <= i <= self.output@.len(),
                output@.len() == i,
                forall|j: int|
                    0 <= j < i ==> (#[trigger] output@[j]).deep_view() == self.output@[j].deep_view(),
            decreases self.output@.len() - i,
        {
            output.push(self.output[i].duplicate());
            i = i + 1;
        }
        let r = Transaction { version: self.version, lock_time: self.lock_time, input, output };
        assert(r.input.deep_view() =~= self.input.deep_view());
        assert(r.output.deep_view() =~= self.output.deep_view());
        r
    }
}

/// Two txids are the same.
pub fn txid_eq(a: &Txid, b: &Txid) -> (r: bool)
    ensures
        r == (*a == *b),
        r == (a.deep_view() == b.deep_view()),
{
    let r = crate::bytes::bytes_eq(a.as_slice(), b.as_slice());
    proof {
        if r {
            assert forall|i: int| 0 <= i < 32 implies a[i] == b[i] by {
                assert(a@[i] == b@[i]);
            }
            assert(*a =~= *b);
        }
    }
    r
}

/// The id that bitcoin gives a transaction.
pub uninterp spec fn txid_of(tx: TransactionView) -> Seq<u8>;

/// Relies on `bitcoin::Transaction::compute_txid`: the hash of the version, inputs, outputs
/// and lock time, as encoded by consensus; it depends on the transaction alone.
#[verifier::external_body]
pub(crate) fn compute_txid(tx: &Transaction) -> (r: Txid)
    ensures
        r@ == txid_of(tx.deep_view()),
{
    let input = tx.input.iter().map(|i| bitcoin::TxIn {
        previous_output: bitcoin::OutPoint::new(bitcoin::Txid::from_byte_array(i.previous_output.txid), i.previous_output.vout),
        script_sig: ScriptBuf::from_bytes(i.script_sig.clone()),
        sequence: Sequence(i.sequence),
        witness: Witness::from_slice(&i.witness),
    }).collect();
    let output = tx.output.iter().map(|o| bitcoin::TxOut { value: Amount::from_sat(o.value), script_pubkey: ScriptBuf::from_bytes(o.script_pubkey.clone()) }).collect();
    let version = transaction::Version(tx.version);
    let lock_time = absolute::LockTime::from_consensus(tx.lock_time);
    bitcoin::Transaction { version, lock_time, input, output }.compute_txid().to_byte_array()
}

/// An absolute lock time: a block height or a Unix time.
#[derive(Clone, Copy, Debug, PartialEq, Eq, Structural)]
pub enum LockTime {
    /// Locked until the chain reaches this height.
    Blocks(u32),
    /// Locked until this Unix time.
    Seconds(u32),
}

impl LockTime {
    /// A height is below the threshold and a time at or above it, so the consensus encoding
    /// tells them apart.
    pub open spec fn valid(self) -> bool {
        match self {
            LockTime::Blocks(n) => n < LOCK_TIME_THRESHOLD,
            LockTime::Seconds(n) => n >= LOCK_TIME_THRESHOLD,
        }
    }

    pub open spec fn spec_from_consensus(n: u32) -> LockTime {
        if n < LOCK_TIME_THRESHOLD {
            LockTime::Blocks(n)
        } else {
            LockTime::Seconds(n)
        }
    }

    pub open spec fn spec_to_consensus(self) -> u32 {
        match self {
            LockTime::Blocks(n) => n,
            LockTime::Seconds(n) => n,
        }
    }

    /// The lock time that a consensus-encoded value stands for.
    pub fn from_consensus(n: u32) -> (r: LockTime)
        ensures
            r == Self::spec_from_consensus(n),
            r.valid(),
    {
        if n < LOCK_TIME_THRESHOLD {
            LockTime::Blocks(n)
        } else {
            LockTime::Seconds(n)
        }
    }

    /// Whether this lock time is a height below the threshold or a time at or above it.
    pub fn is_valid(&self) -> (r: bool)
        ensures
            r == self.valid(),
    {
        match self {
            LockTime::Blocks(n) => *n < LOCK_TIME_THRESHOLD,
            LockTime::Seconds(n) => *n >= LOCK_TIME_THRESHOLD,
        }
    }

    /// The consensus encoding of this lock time.
    pub fn to_consensus_u32(self) -> (r: u32)
        ensures
            r == self.spec_to_consensus(),
    {
        match self {
            LockTime::Blocks(n) => n,
            LockTime::Seconds(n) => n,
        }
    }
}

/// The standard sighash types of an ECDSA signature.
#[derive(Clone, Copy, Debug, PartialEq, Eq, Structural)]
pub enum EcdsaSighashType {
    /// 0x01: signs all inputs and outputs.
    All,
    /// 0x02: signs all inputs and no output.
    SighashNone,
    /// 0x03: signs all inputs and the output of the same index.
    Single,
    /// 0x81: signs this input only and all outputs.
    AllPlusAnyoneCanPay,
    /// 0x82: signs this input only and no output.
    NonePlusAnyoneCanPay,
    /// 0x83: signs this input only and the output of the same index.
    SinglePlusAnyoneCanPay,
}

/// A sighash value that is not one of the standard ones.
#[derive(Clone, Copy, Debug, PartialEq, Eq, Structural)]
pub struct NonStandardSighashTypeError(pub u32);

/// The standard sighash type that `n` encodes, if any.
pub open spec fn standard_sighash(n: u32) -> Option<EcdsaSighashType> {
    if n == 0x01 {
        Some(EcdsaSighashType::All)
    } else if n == 0x02 {
        Some(EcdsaSighashType::SighashNone)
    } else if n == 0x03 {
        Some(EcdsaSighashType::Single)
    } else if n == 0x81 {
        Some(EcdsaSighashType::AllPlusAnyoneCanPay)
    } else if n == 0x82 {
        Some(EcdsaSighashType::NonePlusAnyoneCanPay)
    } else if n == 0x83 {
        Some(EcdsaSighashType::SinglePlusAnyoneCanPay)
    } else {
        None
    }
}

impl EcdsaSighashType {
    pub open spec fn spec_to_u32(self) -> u32 {
        match self {
            EcdsaSighashType::All => 0x01,
            EcdsaSighashType::SighashNone => 0x02,
            EcdsaSighashType::Single => 0x03,
            EcdsaSighashType::AllPlusAnyoneCanPay => 0x81,
            EcdsaSighashType::NonePlusAnyoneCanPay => 0x82,
            EcdsaSighashType::SinglePlusAnyoneCanPay => 0x83,
        }
    }

    /// The sighash flag of this type.
    pub fn to_u32(self) -> (r: u32)
        ensures
            r == self.spec_to_u32(),
    {
        match self {
            EcdsaSighashType::All => 0x01,
            EcdsaSighashType::SighashNone => 0x02,
            EcdsaSighashType::Single => 0x03,
            EcdsaSighashType::AllPlusAnyoneCanPay => 0x81,
            EcdsaSighashType::NonePlusAnyoneCanPay => 0x82,
            EcdsaSighashType::SinglePlusAnyoneCanPay => 0x83,
        }
    }

    /// The standard sighash type with flag `n`.
    pub fn from_standard(n: u32) -> (r: Result<EcdsaSighashType, NonStandardSighashTypeError>)
        ensures
            match standard_sighash(n) {
                Some(t) => r == Ok::<EcdsaSighashType, NonStandardSighashTypeError>(t),
                None => r == Err::<EcdsaSighashType, NonStandardSighashTypeError>(
                    NonStandardSighashTypeError(n),
                ),
            },
    {
        sighash_from_standard(n)
    }
}

/// Relies on `bitcoin::EcdsaSighashType::from_standard`: the six standard flags map to their
/// types, any other value is refused with that value.
#[verifier::external_body]
fn sighash_from_standard(n: u32) -> (r: Result<EcdsaSighashType, NonStandardSighashTypeError>)
    ensures
        match standard_sighash(n) {
            Some(t) => r == Ok::<EcdsaSighashType, NonStandardSighashTypeError>(t),
            None => r == Err::<EcdsaSighashType, NonStandardSighashTypeError>(
                NonStandardSighashTypeError(n),
            ),
        },
{
    match bitcoin::EcdsaSighashType::from_standard(n) {
        Ok(bitcoin::EcdsaSighashType::All) => Ok(EcdsaSighashType::All),
        Ok(bitcoin::EcdsaSighashType::None) => Ok(EcdsaSighashType::SighashNone),
        Ok(bitcoin::EcdsaSighashType::Single) => Ok(EcdsaSighashType::Single),
        Ok(bitcoin::EcdsaSighashType::AllPlusAnyoneCanPay) => Ok(EcdsaSighashType::AllPlusAnyoneCanPay),
        Ok(bitcoin::EcdsaSighashType::NonePlusAnyoneCanPay) => Ok(EcdsaSighashType::NonePlusAnyoneCanPay),
        Ok(bitcoin::EcdsaSighashType::SinglePlusAnyoneCanPay) => Ok(EcdsaSighashType::SinglePlusAnyoneCanPay),
        Err(e) => Err(NonStandardSighashTypeError(e.0)),
    }
}

/// A master key fingerprint and the derivation path from that master key.
#[derive(Clone, Debug, PartialEq, Eq)]
pub struct KeySource {
    /// The first four bytes of the master key's hash160.
    pub fingerprint: [u8; 4],
    /// The child numbers of the derivation path, hardened ones with the top bit set.
    pub path: Vec<u32>,
}

/// A key source seen as plain values.
pub struct KeySourceView {
    pub fingerprint: Seq<u8>,
    pub path: Seq<u32>,
}

impl DeepView for KeySource {
    type V = KeySourceView;

    open spec fn deep_view(&self) -> KeySourceView {
        KeySourceView { fingerprint: self.fingerprint@, path: self.path@ }
    }
}

/// An ECDSA signature with the sighash flag that follows it on the wire.
#[derive(Clone, Debug, PartialEq, Eq)]
pub struct EcdsaSignature {
    /// The DER-encoded signature.
    pub signature: Vec<u8>,
    /// The sighash flag.
    pub sighash_type: u32,
}

/// An ECDSA signature seen as plain values.
pub struct EcdsaSignatureView {
    pub signature: Seq<u8>,
    pub sighash_type: u32,
}

impl DeepView for EcdsaSignature {
    type V = EcdsaSignatureView;

    open spec fn deep_view(&self) -> EcdsaSignatureView {
        EcdsaSignatureView { signature: self.signature@, sighash_type: self.sighash_type }
    }
}

} // verus!
