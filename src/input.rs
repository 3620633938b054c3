//! A PSBT input in the strict version 2 shape.
use vstd::prelude::*;

use crate::error::FundingUtxoError;
use crate::keymap::{options_agree, maps_agree, prefer_first, KeyMap};
use crate::types::{
    EcdsaSignature, EcdsaSignatureView, KeySource, KeySourceView, LockTime, OutPoint, Transaction,
    TransactionView, OutPointView, TxIn, TxOut, TxOutView, Txid, LOCK_TIME_THRESHOLD, SEQUENCE_FINAL, txid_eq,
};
use crate::wire::{WireInput, WireInputView};

verus! {

broadcast use vstd::array::group_array_axioms, crate::bytes::lemma_bytes_deep_view, crate::bytes::lemma_array_deep_view;

/// A PSBT input whose identifying fields are present, as version 2 requires.
pub struct Input {
    /// The txid of the transaction whose output at `spent_output_index` this input spends.
    pub previous_txid: Txid,
    /// The index of the spent output in that transaction.
    pub spent_output_index: u32,
    /// The sequence number of this input; if omitted, the final sequence number is assumed.
    pub sequence: Option<u32>,
    /// The minimum Unix time that this input requires as the transaction's lock time.
    pub min_time: Option<u32>,
    /// The minimum block height that this input requires as the transaction's lock time.
    pub min_height: Option<u32>,
    /// The whole transaction this input spends from.
    pub non_witness_utxo: Option<Transaction>,
    /// The output this input spends, for segwit spends.
    pub witness_utxo: Option<TxOut>,
    /// Public key to ECDSA signature, for non-Taproot spends.
    pub partial_sigs: KeyMap<EcdsaSignature>,
    /// The sighash flag that signatures of this input must use.
    pub sighash_type: Option<u32>,
    /// The redeem script, if any.
    pub redeem_script: Option<Vec<u8>>,
    /// The witness script, if any.
    pub witness_script: Option<Vec<u8>>,
    /// Public key to the master fingerprint and derivation path it comes from.
    pub bip32_derivation: KeyMap<KeySource>,
    /// The finalized scriptSig.
    pub final_script_sig: Option<Vec<u8>>,
    /// The finalized witness stack; empty for a legacy spend.
    pub final_script_witness: Option<Vec<Vec<u8>>>,
    /// RIPEMD160 hash to preimage.
    pub ripemd160_preimages: KeyMap<Vec<u8>>,
    /// SHA256 hash to preimage.
    pub sha256_preimages: KeyMap<Vec<u8>>,
    /// HASH160 hash to preimage.
    pub hash160_preimages: KeyMap<Vec<u8>>,
    /// HASH256 hash to preimage.
    pub hash256_preimages: KeyMap<Vec<u8>>,
    /// The Taproot key-path signature, with its sighash byte if any.
    pub tap_key_sig: Option<Vec<u8>>,
    /// X-only public key followed by leaf hash, to Taproot script-path signature.
    pub tap_script_sigs: KeyMap<Vec<u8>>,
    /// Control block to leaf script and leaf version.
    pub tap_scripts: KeyMap<(Vec<u8>, u8)>,
    /// X-only public key to the leaf hashes it appears in and its key source.
    pub tap_key_origins: KeyMap<(Vec<Txid>, KeySource)>,
    /// The Taproot internal key.
    pub tap_internal_key: Option<[u8; 32]>,
    /// The Taproot Merkle root.
    pub tap_merkle_root: Option<[u8; 32]>,
    /// Proprietary key-value records.
    pub proprietary: KeyMap<Vec<u8>>,
    /// Unknown key-value records.
    pub unknown: KeyMap<Vec<u8>>,
}

/// An input seen as plain values: byte strings as sequences, maps as maps.
pub struct InputView {
    pub previous_txid: Seq<u8>,
    pub spent_output_index: u32,
    pub sequence: Option<u32>,
    pub min_time: Option<u32>,
    pub min_height: Option<u32>,
    pub non_witness_utxo: Option<TransactionView>,
    pub witness_utxo: Option<TxOutView>,
    pub partial_sigs: Map<Seq<u8>, EcdsaSignatureView>,
    pub sighash_type: Option<u32>,
    pub redeem_script: Option<Seq<u8>>,
    pub witness_script: Option<Seq<u8>>,
    pub bip32_derivation: Map<Seq<u8>, KeySourceView>,
    pub final_script_sig: Option<Seq<u8>>,
    pub final_script_witness: Option<Seq<Seq<u8>>>,
    pub ripemd160_preimages: Map<Seq<u8>, Seq<u8>>,
    pub sha256_preimages: Map<Seq<u8>, Seq<u8>>,
    pub hash160_preimages: Map<Seq<u8>, Seq<u8>>,
    pub hash256_preimages: Map<Seq<u8>, Seq<u8>>,
    pub tap_key_sig: Option<Seq<u8>>,
    pub tap_script_sigs: Map<Seq<u8>, Seq<u8>>,
    pub tap_scripts: Map<Seq<u8>, (Seq<u8>, u8)>,
    pub tap_key_origins: Map<Seq<u8>, (Seq<Seq<u8>>, KeySourceView)>,
    pub tap_internal_key: Option<Seq<u8>>,
    pub tap_merkle_root: Option<Seq<u8>>,
    pub proprietary: Map<Seq<u8>, Seq<u8>>,
    pub unknown: Map<Seq<u8>, Seq<u8>>,
}

impl View for Input {
    type V = InputView;

    open spec fn view(&self) -> InputView {
        InputView {
            previous_txid: self.previous_txid.deep_view(),
            spent_output_index: self.spent_output_index,
            sequence: self.sequence,
            min_time: self.min_time,
            min_height: self.min_height,
            non_witness_utxo: self.non_witness_utxo.deep_view(),
            witness_utxo: self.witness_utxo.deep_view(),
            partial_sigs: self.partial_sigs@,
            sighash_type: self.sighash_type,
            redeem_script: self.redeem_script.deep_view(),
            witness_script: self.witness_script.deep_view(),
            bip32_derivation: self.bip32_derivation@,
            final_script_sig: self.final_script_sig.deep_view(),
            final_script_witness: self.final_script_witness.deep_view(),
            ripemd160_preimages: self.ripemd160_preimages@,
            sha256_preimages: self.sha256_preimages@,
            hash160_preimages: self.hash160_preimages@,
            hash256_preimages: self.hash256_preimages@,
            tap_key_sig: self.tap_key_sig.deep_view(),
            tap_script_sigs: self.tap_script_sigs@,
            tap_scripts: self.tap_scripts@,
            tap_key_origins: self.tap_key_origins@,
            tap_internal_key: self.tap_internal_key.deep_view(),
            tap_merkle_root: self.tap_merkle_root.deep_view(),
            proprietary: self.proprietary@,
            unknown: self.unknown@,
        }
    }
}

/// An input is not valid as version 2 requires.
#[derive(Clone, Copy, Debug, PartialEq, Eq, Structural)]
pub enum V2InvalidError {
    /// Field `previous_txid` is not set (PSBT_IN_PREVIOUS_TXID).
    MissingPreviousTxid,
    /// Field `spent_output_index` is not set (PSBT_IN_OUTPUT_INDEX).
    MissingSpentOutputIndex,
    /// Field `min_time` is below the lock-time threshold, so it is no Unix time.
    InvalidMinTime,
    /// Field `min_height` is at or above the lock-time threshold, so it is no block height.
    InvalidMinHeight,
}

/// An input is not valid as version 0 requires.
#[derive(Clone, Copy, Debug, PartialEq, Eq, Structural)]
pub enum V0InvalidError {
    /// Field `sequence` must be absent in version 0 (PSBT_IN_SEQUENCE).
    HasSequence,
    /// Field `min_time` must be absent in version 0 (PSBT_IN_REQUIRED_TIME_LOCKTIME).
    HasMinTime,
    /// Field `min_height` must be absent in version 0 (PSBT_IN_REQUIRED_HEIGHT_LOCKTIME).
    HasMinHeight,
}

/// Two inputs that do not spend the same output cannot be combined.
#[derive(Clone, Copy, Debug, PartialEq, Eq)]
pub enum CombineError {
    /// The previous txids differ.
    PreviousTxidMismatch {
        /// This input's txid.
        this: Txid,
        /// The other input's txid.
        that: Txid,
    },
    /// The spent output indices differ.
    SpentOutputIndexMismatch {
        /// This input's index.
        this: u32,
        /// The other input's index.
        that: u32,
    },
}

/// Finalizing an input failed.
#[derive(Clone, Copy, Debug, PartialEq, Eq, Structural)]
pub enum FinalizeError {
    /// The input spends a segwit output but the final witness is empty.
    EmptyWitness,
}

/// The error, if any, of checking a wire input against the version 2 requirements.
pub open spec fn v2_error(w: WireInputView) -> Option<V2InvalidError> {
    if w.previous_txid is None {
        Some(V2InvalidError::MissingPreviousTxid)
    } else if w.spent_output_index is None {
        Some(V2InvalidError::MissingSpentOutputIndex)
    } else if w.min_time matches Some(t) && t < LOCK_TIME_THRESHOLD {
        Some(V2InvalidError::InvalidMinTime)
    } else if w.min_height matches Some(h) && h >= LOCK_TIME_THRESHOLD {
        Some(V2InvalidError::InvalidMinHeight)
    } else {
        None
    }
}

/// The error, if any, of checking a wire input against the version 0 requirements.
pub open spec fn v0_error(w: WireInputView) -> Option<V0InvalidError> {
    if w.sequence is Some {
        Some(V0InvalidError::HasSequence)
    } else if w.min_time is Some {
        Some(V0InvalidError::HasMinTime)
    } else if w.min_height is Some {
        Some(V0InvalidError::HasMinHeight)
    } else {
        None
    }
}

/// The strict input that a wire input valid for version 2 stands for.
pub open spec fn spec_from_v2(w: WireInputView) -> InputView {
    InputView {
        previous_txid: w.previous_txid.unwrap(),
        spent_output_index: w.spent_output_index.unwrap(),
        sequence: w.sequence,
        min_time: w.min_time,
        min_height: w.min_height,
        non_witness_utxo: w.non_witness_utxo,
        witness_utxo: w.witness_utxo,
        partial_sigs: w.partial_sigs,
        sighash_type: w.sighash_type,
        redeem_script: w.redeem_script,
        witness_script: w.witness_script,
        bip32_derivation: w.bip32_derivation,
        final_script_sig: w.final_script_sig,
        final_script_witness: w.final_script_witness,
        ripemd160_preimages: w.ripemd160_preimages,
        sha256_preimages: w.sha256_preimages,
        hash160_preimages: w.hash160_preimages,
        hash256_preimages: w.hash256_preimages,
        tap_key_sig: w.tap_key_sig,
        tap_script_sigs: w.tap_script_sigs,
        tap_scripts: w.tap_scripts,
        tap_key_origins: w.tap_key_origins,
        tap_internal_key: w.tap_internal_key,
        tap_merkle_root: w.tap_merkle_root,
        proprietary: w.proprietary,
        unknown: w.unknown,
    }
}

/// The strict input that a wire input valid for version 0 stands for, given the output it
/// spends as the unsigned transaction names it: the fields that only version 2 carries stay
/// absent.
pub open spec fn spec_from_v0(w: WireInputView, prevout: OutPointView) -> InputView {
    InputView {
        previous_txid: prevout.txid,
        spent_output_index: prevout.vout,
        sequence: None,
        min_time: None,
        min_height: None,
        non_witness_utxo: w.non_witness_utxo,
        witness_utxo: w.witness_utxo,
        partial_sigs: w.partial_sigs,
        sighash_type: w.sighash_type,
        redeem_script: w.redeem_script,
        witness_script: w.witness_script,
        bip32_derivation: w.bip32_derivation,
        final_script_sig: w.final_script_sig,
        final_script_witness: w.final_script_witness,
        ripemd160_preimages: w.ripemd160_preimages,
        sha256_preimages: w.sha256_preimages,
        hash160_preimages: w.hash160_preimages,
        hash256_preimages: w.hash256_preimages,
        tap_key_sig: w.tap_key_sig,
        tap_script_sigs: w.tap_script_sigs,
        tap_scripts: w.tap_scripts,
        tap_key_origins: w.tap_key_origins,
        tap_internal_key: w.tap_internal_key,
        tap_merkle_root: w.tap_merkle_root,
        proprietary: w.proprietary,
        unknown: w.unknown,
    }
}

impl InputView {
    /// The wire form of this input for version 2.
    pub open spec fn to_v2(self) -> WireInputView {
        WireInputView {
            previous_txid: Some(self.previous_txid),
            spent_output_index: Some(self.spent_output_index),
        sequence: self.sequence,
        min_time: self.min_time,
        min_height: self.min_height,
        non_witness_utxo: self.non_witness_utxo,
        witness_utxo: self.witness_utxo,
        partial_sigs: self.partial_sigs,
        sighash_type: self.sighash_type,
        redeem_script: self.redeem_script,
        witness_script: self.witness_script,
        bip32_derivation: self.bip32_derivation,
        final_script_sig: self.final_script_sig,
        final_script_witness: self.final_script_witness,
        ripemd160_preimages: self.ripemd160_preimages,
        sha256_preimages: self.sha256_preimages,
        hash160_preimages: self.hash160_preimages,
        hash256_preimages: self.hash256_preimages,
        tap_key_sig: self.tap_key_sig,
        tap_script_sigs: self.tap_script_sigs,
        tap_scripts: self.tap_scripts,
        tap_key_origins: self.tap_key_origins,
        tap_internal_key: self.tap_internal_key,
        tap_merkle_root: self.tap_merkle_root,
        proprietary: self.proprietary,
        unknown: self.unknown,
        }
    }

    /// The wire form of this input for version 0: the fields that version 0 keeps in the
    /// unsigned transaction, or does not know, are left out.
    pub open spec fn to_v0(self) -> WireInputView {
        WireInputView {
            previous_txid: None,
            spent_output_index: None,
            sequence: None,
            min_time: None,
            min_height: None,
        non_witness_utxo: self.non_witness_utxo,
        witness_utxo: self.witness_utxo,
        partial_sigs: self.partial_sigs,
        sighash_type: self.sighash_type,
        redeem_script: self.redeem_script,
        witness_script: self.witness_script,
        bip32_derivation: self.bip32_derivation,
        final_script_sig: self.final_script_sig,
        final_script_witness: self.final_script_witness,
        ripemd160_preimages: self.ripemd160_preimages,
        sha256_preimages: self.sha256_preimages,
        hash160_preimages: self.hash160_preimages,
        hash256_preimages: self.hash256_preimages,
        tap_key_sig: self.tap_key_sig,
        tap_script_sigs: self.tap_script_sigs,
        tap_scripts: self.tap_scripts,
        tap_key_origins: self.tap_key_origins,
        tap_internal_key: self.tap_internal_key,
        tap_merkle_root: self.tap_merkle_root,
        proprietary: self.proprietary,
        unknown: self.unknown,
        }
    }

    /// A required time is a Unix time and a required height a block height, as bitcoin's
    /// lock-time threshold tells them apart.
    pub open spec fn lock_times_valid(self) -> bool {
        (self.min_time matches Some(t) ==> t >= LOCK_TIME_THRESHOLD) && (self.min_height matches Some(h)
            ==> h < LOCK_TIME_THRESHOLD)
    }

    pub open spec fn has_lock_time(self) -> bool {
        self.min_time is Some || self.min_height is Some
    }

    pub open spec fn requires_time_based_lock_time(self) -> bool {
        self.min_time is Some && self.min_height is None
    }

    pub open spec fn requires_height_based_lock_time(self) -> bool {
        self.min_height is Some && self.min_time is None
    }

    /// A height-based lock time meets this input's requirement.
    pub open spec fn is_satisfied_with_height_based_lock_time(self) -> bool {
        self.requires_height_based_lock_time() || (self.min_time is Some && self.min_height is Some)
            || (self.min_time is None && self.min_height is None)
    }

    /// The output this input spends, from the evidence it carries.
    pub open spec fn funding_utxo(self) -> Result<TxOutView, FundingUtxoError> {
        match self.witness_utxo {
            Some(o) => Ok(o),
            None => match self.non_witness_utxo {
                Some(tx) => if (self.spent_output_index as int) < tx.output.len() {
                    Ok(tx.output[self.spent_output_index as int])
                } else {
                    Err(
                        FundingUtxoError::OutOfBounds {
                            vout: self.spent_output_index as usize,
                            len: tx.output.len() as usize,
                        },
                    )
                },
                None => Err(FundingUtxoError::MissingUtxo),
            },
        }
    }

    pub open spec fn is_finalized(self) -> bool {
        self.final_script_sig is Some && self.final_script_witness is Some
    }

    /// This input once finalized with `script_sig` and `witness`: the signing material is
    /// gone, the spent output, timing fields and extension records stay.
    pub open spec fn finalized(self, script_sig: Seq<u8>, witness: Seq<Seq<u8>>) -> InputView {
        InputView {
            previous_txid: self.previous_txid,
            spent_output_index: self.spent_output_index,
            sequence: self.sequence,
            min_time: self.min_time,
            min_height: self.min_height,
            non_witness_utxo: self.non_witness_utxo,
            witness_utxo: self.witness_utxo,
            partial_sigs: Map::empty(),
            sighash_type: None,
            redeem_script: None,
            witness_script: None,
            bip32_derivation: Map::empty(),
            final_script_sig: Some(script_sig),
            final_script_witness: Some(witness),
            ripemd160_preimages: Map::empty(),
            sha256_preimages: Map::empty(),
            hash160_preimages: Map::empty(),
            hash256_preimages: Map::empty(),
            tap_key_sig: None,
            tap_script_sigs: Map::empty(),
            tap_scripts: Map::empty(),
            tap_key_origins: Map::empty(),
            tap_internal_key: None,
            tap_merkle_root: None,
            proprietary: self.proprietary,
            unknown: self.unknown,
        }
    }

    /// The lock time this input asks for on its own: its height if it sets one, else its time.
    pub open spec fn lock_time(self) -> LockTime {
        match (self.min_height, self.min_time) {
            (Some(h), _) => LockTime::Blocks(h),
            (None, Some(t)) => LockTime::Seconds(t),
            (None, None) => LockTime::Blocks(0),
        }
    }

    /// Both inputs spend the same output.
    pub open spec fn same_outpoint(self, other: InputView) -> bool {
        self.previous_txid == other.previous_txid && self.spent_output_index == other.spent_output_index
    }

    /// The merge of this input with `other`: a field present here stays, else `other`'s is
    /// taken; maps are united, this input's entry winning on a shared key.
    pub open spec fn combine(self, other: InputView) -> InputView {
        InputView {
            previous_txid: self.previous_txid,
            spent_output_index: self.spent_output_index,
            sequence: prefer_first(self.sequence, other.sequence),
            min_time: prefer_first(self.min_time, other.min_time),
            min_height: prefer_first(self.min_height, other.min_height),
            non_witness_utxo: prefer_first(self.non_witness_utxo, other.non_witness_utxo),
            witness_utxo: prefer_first(self.witness_utxo, other.witness_utxo),
            partial_sigs: other.partial_sigs.union_prefer_right(self.partial_sigs),
            sighash_type: prefer_first(self.sighash_type, other.sighash_type),
            redeem_script: prefer_first(self.redeem_script, other.redeem_script),
            witness_script: prefer_first(self.witness_script, other.witness_script),
            bip32_derivation: other.bip32_derivation.union_prefer_right(self.bip32_derivation),
            final_script_sig: prefer_first(self.final_script_sig, other.final_script_sig),
            final_script_witness: prefer_first(self.final_script_witness, other.final_script_witness),
            ripemd160_preimages: other.ripemd160_preimages.union_prefer_right(self.ripemd160_preimages),
            sha256_preimages: other.sha256_preimages.union_prefer_right(self.sha256_preimages),
            hash160_preimages: other.hash160_preimages.union_prefer_right(self.hash160_preimages),
            hash256_preimages: other.hash256_preimages.union_prefer_right(self.hash256_preimages),
            tap_key_sig: prefer_first(self.tap_key_sig, other.tap_key_sig),
            tap_script_sigs: other.tap_script_sigs.union_prefer_right(self.tap_script_sigs),
            tap_scripts: other.tap_scripts.union_prefer_right(self.tap_scripts),
            tap_key_origins: other.tap_key_origins.union_prefer_right(self.tap_key_origins),
            tap_internal_key: prefer_first(self.tap_internal_key, other.tap_internal_key),
            tap_merkle_root: prefer_first(self.tap_merkle_root, other.tap_merkle_root),
            proprietary: other.proprietary.union_prefer_right(self.proprietary),
            unknown: other.unknown.union_prefer_right(self.unknown),
        }
    }

    /// `e` is the error of combining this input with `other`, which spends another output.
    pub open spec fn combine_error_is(self, other: InputView, e: CombineError) -> bool {
        match e {
            CombineError::PreviousTxidMismatch { this, that } => this.deep_view() == self.previous_txid
                && that.deep_view() == other.previous_txid && self.previous_txid != other.previous_txid,
            CombineError::SpentOutputIndexMismatch { this, that } => self.previous_txid == other.previous_txid
                && this == self.spent_output_index && that == other.spent_output_index && this != that,
        }
    }

    /// Every field and map entry that both inputs carry has the same value in each.
    pub open spec fn agrees_with(self, other: InputView) -> bool {
        &&& options_agree(self.sequence, other.sequence)
        &&& options_agree(self.min_time, other.min_time)
        &&& options_agree(self.min_height, other.min_height)
        &&& options_agree(self.non_witness_utxo, other.non_witness_utxo)
        &&& options_agree(self.witness_utxo, other.witness_utxo)
        &&& maps_agree(self.partial_sigs, other.partial_sigs)
        &&& options_agree(self.sighash_type, other.sighash_type)
        &&& options_agree(self.redeem_script, other.redeem_script)
        &&& options_agree(self.witness_script, other.witness_script)
        &&& maps_agree(self.bip32_derivation, other.bip32_derivation)
        &&& options_agree(self.final_script_sig, other.final_script_sig)
        &&& options_agree(self.final_script_witness, other.final_script_witness)
        &&& maps_agree(self.ripemd160_preimages, other.ripemd160_preimages)
        &&& maps_agree(self.sha256_preimages, other.sha256_preimages)
        &&& maps_agree(self.hash160_preimages, other.hash160_preimages)
        &&& maps_agree(self.hash256_preimages, other.hash256_preimages)
        &&& options_agree(self.tap_key_sig, other.tap_key_sig)
        &&& maps_agree(self.tap_script_sigs, other.tap_script_sigs)
        &&& maps_agree(self.tap_scripts, other.tap_scripts)
        &&& maps_agree(self.tap_key_origins, other.tap_key_origins)
        &&& options_agree(self.tap_internal_key, other.tap_internal_key)
        &&& options_agree(self.tap_merkle_root, other.tap_merkle_root)
        &&& maps_agree(self.proprietary, other.proprietary)
        &&& maps_agree(self.unknown, other.unknown)
    }
}

/// An input spending output `spent_output_index` of transaction `previous_txid`, with no
/// other field set.
pub open spec fn bare_input(previous_txid: Seq<u8>, spent_output_index: u32) -> InputView {
    InputView {
        previous_txid,
        spent_output_index,
        sequence: None,
        min_time: None,
        min_height: None,
        non_witness_utxo: None,
        witness_utxo: None,
        partial_sigs: Map::empty(),
        sighash_type: None,
        redeem_script: None,
        witness_script: None,
        bip32_derivation: Map::empty(),
        final_script_sig: None,
        final_script_witness: None,
        ripemd160_preimages: Map::empty(),
        sha256_preimages: Map::empty(),
        hash160_preimages: Map::empty(),
        hash256_preimages: Map::empty(),
        tap_key_sig: None,
        tap_script_sigs: Map::empty(),
        tap_scripts: Map::empty(),
        tap_key_origins: Map::empty(),
        tap_internal_key: None,
        tap_merkle_root: None,
        proprietary: Map::empty(),
        unknown: Map::empty(),
    }
}

impl Input {
    /// An input that spends output `spent_output_index` of transaction `previous_txid`, with
    /// no other field set.
    pub fn new(previous_txid: Txid, spent_output_index: u32) -> (r: Input)
        ensures
            r@ == bare_input(previous_txid.deep_view(), spent_output_index),
    {
        Input {
            previous_txid,
            spent_output_index,
            sequence: None,
            min_time: None,
            min_height: None,
            non_witness_utxo: None,
            witness_utxo: None,
            partial_sigs: KeyMap::new(),
            sighash_type: None,
            redeem_script: None,
            witness_script: None,
            bip32_derivation: KeyMap::new(),
            final_script_sig: None,
            final_script_witness: None,
            ripemd160_preimages: KeyMap::new(),
            sha256_preimages: KeyMap::new(),
            hash160_preimages: KeyMap::new(),
            hash256_preimages: KeyMap::new(),
            tap_key_sig: None,
            tap_script_sigs: KeyMap::new(),
            tap_scripts: KeyMap::new(),
            tap_key_origins: KeyMap::new(),
            tap_internal_key: None,
            tap_merkle_root: None,
            proprietary: KeyMap::new(),
            unknown: KeyMap::new(),
        }
    }

    /// Reads a wire input as a strict one, if it carries the version 2 fields.
    pub fn from_v2(input: WireInput) -> (r: Result<Input, V2InvalidError>)
        ensures
            match r {
                Ok(i) => v2_error(input@) is None && i@ == spec_from_v2(input@),
                Err(e) => v2_error(input@) == Some(e),
            },
    {
        assert_is_valid_v2(&input)?;
        let previous_txid = input.previous_txid.unwrap();
        let spent_output_index = input.spent_output_index.unwrap();
        Ok(Input {
            previous_txid,
            spent_output_index,
            sequence: input.sequence,
            min_time: input.min_time,
            min_height: input.min_height,
            non_witness_utxo: input.non_witness_utxo,
            witness_utxo: input.witness_utxo,
            partial_sigs: input.partial_sigs,
            sighash_type: input.sighash_type,
            redeem_script: input.redeem_script,
            witness_script: input.witness_script,
            bip32_derivation: input.bip32_derivation,
            final_script_sig: input.final_script_sig,
            final_script_witness: input.final_script_witness,
            ripemd160_preimages: input.ripemd160_preimages,
            sha256_preimages: input.sha256_preimages,
            hash160_preimages: input.hash160_preimages,
            hash256_preimages: input.hash256_preimages,
            tap_key_sig: input.tap_key_sig,
            tap_script_sigs: input.tap_script_sigs,
            tap_scripts: input.tap_scripts,
            tap_key_origins: input.tap_key_origins,
            tap_internal_key: input.tap_internal_key,
            tap_merkle_root: input.tap_merkle_root,
            proprietary: input.proprietary,
            unknown: input.unknown,
        })
    }

    /// Reads a version 0 wire input as a strict one spending `prevout`, the output that the
    /// unsigned transaction's input at the same position names.
    pub fn from_v0(input: WireInput, prevout: &OutPoint) -> (r: Result<Input, V0InvalidError>)
        ensures
            match r {
                Ok(i) => v0_error(input@) is None && i@ == spec_from_v0(input@, prevout.deep_view()),
                Err(e) => v0_error(input@) == Some(e),
            },
    {
        assert_is_valid_v0(&input)?;
        Ok(Input {
            previous_txid: prevout.txid,
            spent_output_index: prevout.vout,
            sequence: None,
            min_time: None,
            min_height: None,
            non_witness_utxo: input.non_witness_utxo,
            witness_utxo: input.witness_utxo,
            partial_sigs: input.partial_sigs,
            sighash_type: input.sighash_type,
            redeem_script: input.redeem_script,
            witness_script: input.witness_script,
            bip32_derivation: input.bip32_derivation,
            final_script_sig: input.final_script_sig,
            final_script_witness: input.final_script_witness,
            ripemd160_preimages: input.ripemd160_preimages,
            sha256_preimages: input.sha256_preimages,
            hash160_preimages: input.hash160_preimages,
            hash256_preimages: input.hash256_preimages,
            tap_key_sig: input.tap_key_sig,
            tap_script_sigs: input.tap_script_sigs,
            tap_scripts: input.tap_scripts,
            tap_key_origins: input.tap_key_origins,
            tap_internal_key: input.tap_internal_key,
            tap_merkle_root: input.tap_merkle_root,
            proprietary: input.proprietary,
            unknown: input.unknown,
        })
    }

    /// The version 2 wire form of this input.
    pub fn to_v2(self) -> (r: WireInput)
        ensures
            r@ == self@.to_v2(),
    {
        WireInput {
            previous_txid: Some(self.previous_txid),
            spent_output_index: Some(self.spent_output_index),
            sequence: self.sequence,
            min_time: self.min_time,
            min_height: self.min_height,
            non_witness_utxo: self.non_witness_utxo,
            witness_utxo: self.witness_utxo,
            partial_sigs: self.partial_sigs,
            sighash_type: self.sighash_type,
            redeem_script: self.redeem_script,
            witness_script: self.witness_script,
            bip32_derivation: self.bip32_derivation,
            final_script_sig: self.final_script_sig,
            final_script_witness: self.final_script_witness,
            ripemd160_preimages: self.ripemd160_preimages,
            sha256_preimages: self.sha256_preimages,
            hash160_preimages: self.hash160_preimages,
            hash256_preimages: self.hash256_preimages,
            tap_key_sig: self.tap_key_sig,
            tap_script_sigs: self.tap_script_sigs,
            tap_scripts: self.tap_scripts,
            tap_key_origins: self.tap_key_origins,
            tap_internal_key: self.tap_internal_key,
            tap_merkle_root: self.tap_merkle_root,
            proprietary: self.proprietary,
            unknown: self.unknown,
        }
    }

    /// The version 0 wire form of this input.
    pub fn to_v0(self) -> (r: WireInput)
        ensures
            r@ == self@.to_v0(),
    {
        let mut input = self.to_v2();
        input.previous_txid = None;
        input.spent_output_index = None;
        input.sequence = None;
        input.min_time = None;
        input.min_height = None;
        input
    }

    /// The input of the unsigned transaction that this input stands for.
    pub fn unsigned_tx_in(&self) -> (r: TxIn)
        ensures
            r.previous_output == (OutPoint { txid: self.previous_txid, vout: self.spent_output_index }),
            r.script_sig@.len() == 0,
            r.sequence == self.sequence.unwrap_or(SEQUENCE_FINAL),
            r.witness@.len() == 0,
            r.deep_view() == crate::tx_in_of(self@),
    {
        let r = TxIn {
            previous_output: OutPoint { txid: self.previous_txid, vout: self.spent_output_index },
            script_sig: Vec::new(),
            sequence: match self.sequence {
                Some(n) => n,
                None => SEQUENCE_FINAL,
            },
            witness: Vec::new(),
        };
        assert(r.witness.deep_view() =~= Seq::empty());
        assert(r.script_sig@ =~= Seq::empty());
        r
    }

    /// Whether this input sets a lock-time requirement.
    pub fn has_lock_time(&self) -> (r: bool)
        ensures
            r == self@.has_lock_time(),
    {
        self.min_time.is_some() || self.min_height.is_some()
    }

    /// Whether a height-based lock time meets this input's requirement.
    pub fn is_satisfied_with_height_based_lock_time(&self) -> (r: bool)
        ensures
            r == self@.is_satisfied_with_height_based_lock_time(),
    {
        self.requires_height_based_lock_time() || self.min_time.is_some() && self.min_height.is_some()
            || self.min_time.is_none() && self.min_height.is_none()
    }

    /// Whether only a time-based lock time meets this input's requirement.
    pub fn requires_time_based_lock_time(&self) -> (r: bool)
        ensures
            r == self@.requires_time_based_lock_time(),
    {
        self.min_time.is_some() && self.min_height.is_none()
    }

    /// Whether only a height-based lock time meets this input's requirement.
    pub fn requires_height_based_lock_time(&self) -> (r: bool)
        ensures
            r == self@.requires_height_based_lock_time(),
    {
        self.min_height.is_some() && self.min_time.is_none()
    }

    /// The output this input spends: the attached output if there is one, else the output of
    /// the attached previous transaction at the spent index.
    pub fn funding_utxo(&self) -> (r: Result<&TxOut, FundingUtxoError>)
        ensures
            match r {
                Ok(o) => self@.funding_utxo() == Ok::<TxOutView, FundingUtxoError>(o.deep_view()),
                Err(e) => self@.funding_utxo() == Err::<TxOutView, FundingUtxoError>(e),
            },
    {
        if let Some(utxo) = &self.witness_utxo {
            Ok(utxo)
        } else if let Some(tx) = &self.non_witness_utxo {
            let vout = self.spent_output_index as usize;
            if vout < tx.output.len() {
                Ok(&tx.output[vout])
            } else {
                Err(FundingUtxoError::OutOfBounds { vout, len: tx.output.len() })
            }
        } else {
            Err(FundingUtxoError::MissingUtxo)
        }
    }

    /// Whether this input carries both a final scriptSig and a final witness.
    pub fn is_finalized(&self) -> (r: bool)
        ensures
            r == self@.is_finalized(),
    {
        self.final_script_sig.is_some() && self.final_script_witness.is_some()
    }

    /// Whether this input carries any signature.
    pub fn has_sig_data(&self) -> (r: bool)
        ensures
            r == !(self@.partial_sigs == Map::<Seq<u8>, EcdsaSignatureView>::empty()
                && self@.tap_key_sig is None && self@.tap_script_sigs == Map::<Seq<u8>, Seq<u8>>::empty()),
    {
        !(self.partial_sigs.is_empty() && self.tap_key_sig.is_none() && self.tap_script_sigs.is_empty())
    }

    /// The finalized form of this input, with `final_script_sig` and `final_script_witness`
    /// as a script finalizer produced them; the witness is empty for a legacy spend.
    pub fn finalize(&self, final_script_sig: Vec<u8>, final_script_witness: Vec<Vec<u8>>) -> (r: Result<
        Input,
        FinalizeError,
    >)
        ensures
            match r {
                Ok(i) => !(self.witness_utxo is Some && final_script_witness@.len() == 0) && i@
                    == self@.finalized(final_script_sig.deep_view(), final_script_witness.deep_view()),
                Err(e) => e == FinalizeError::EmptyWitness && self.witness_utxo is Some
                    && final_script_witness@.len() == 0,
            },
    {
        if self.witness_utxo.is_some() && final_script_witness.len() == 0 {
            return Err(FinalizeError::EmptyWitness);
        }
        Ok(Input {
            previous_txid: self.previous_txid,
            spent_output_index: self.spent_output_index,
            sequence: self.sequence,
            min_time: self.min_time,
            min_height: self.min_height,
            non_witness_utxo: match &self.non_witness_utxo {
                Some(tx) => Some(tx.duplicate()),
                None => None,
            },
            witness_utxo: match &self.witness_utxo {
                Some(o) => Some(o.duplicate()),
                None => None,
            },
            partial_sigs: KeyMap::new(),
            sighash_type: None,
            redeem_script: None,
            witness_script: None,
            bip32_derivation: KeyMap::new(),
            final_script_sig: Some(final_script_sig),
            final_script_witness: Some(final_script_witness),
            ripemd160_preimages: KeyMap::new(),
            sha256_preimages: KeyMap::new(),
            hash160_preimages: KeyMap::new(),
            hash256_preimages: KeyMap::new(),
            tap_key_sig: None,
            tap_script_sigs: KeyMap::new(),
            tap_scripts: KeyMap::new(),
            tap_key_origins: KeyMap::new(),
            tap_internal_key: None,
            tap_merkle_root: None,
            proprietary: self.proprietary.duplicate(),
            unknown: self.unknown.duplicate(),
        })
    }

    /// The lock time this input asks for on its own.
    pub fn lock_time(&self) -> (r: LockTime)
        ensures
            r == self@.lock_time(),
    {
        match (self.min_height, self.min_time) {
            (Some(height), _) => LockTime::Blocks(height),
            (None, Some(time)) => LockTime::Seconds(time),
            (None, None) => LockTime::Blocks(0),
        }
    }

    /// Checks that `other` spends the same output as this input.
    pub fn check_same_outpoint(&self, other: &Input) -> (r: Result<(), CombineError>)
        ensures
            match r {
                Ok(()) => self@.same_outpoint(other@),
                Err(e) => self@.combine_error_is(other@, e) && !self@.same_outpoint(other@),
            },
    {
        if !txid_eq(&self.previous_txid, &other.previous_txid) {
            return Err(CombineError::PreviousTxidMismatch { this: self.previous_txid, that: other.previous_txid });
        }
        if self.spent_output_index != other.spent_output_index {
            return Err(
                CombineError::SpentOutputIndexMismatch {
                    this: self.spent_output_index,
                    that: other.spent_output_index,
                },
            );
        }
        Ok(())
    }

    /// Combines this input with `other`, which must spend the same output.
    pub fn combine(&mut self, other: Self) -> (r: Result<(), CombineError>)
        ensures
            match r {
                Ok(()) => old(self)@.same_outpoint(other@) && final(self)@ == old(self)@.combine(other@),
                Err(e) => old(self)@.combine_error_is(other@, e) && !old(self)@.same_outpoint(other@)
                    && *final(self) == *old(self),
            },
    {
        self.check_same_outpoint(&other)?;
        self.merge_fields(other);
        Ok(())
    }

    /// Merges the fields of `other` into this input.
    pub(crate) fn merge_fields(&mut self, other: Self)
        ensures
            final(self)@ == old(self)@.combine(other@),
    {
        if self.sequence.is_none() {
            self.sequence = other.sequence;
        }
        if self.min_time.is_none() {
            self.min_time = other.min_time;
        }
        if self.min_height.is_none() {
            self.min_height = other.min_height;
        }
        if self.non_witness_utxo.is_none() {
            self.non_witness_utxo = other.non_witness_utxo;
        }
        if self.witness_utxo.is_none() {
            self.witness_utxo = other.witness_utxo;
        }
        self.partial_sigs.extend_missing(other.partial_sigs);
        if self.sighash_type.is_none() {
            self.sighash_type = other.sighash_type;
        }
        if self.redeem_script.is_none() {
            self.redeem_script = other.redeem_script;
        }
        if self.witness_script.is_none() {
            self.witness_script = other.witness_script;
        }
        self.bip32_derivation.extend_missing(other.bip32_derivation);
        if self.final_script_sig.is_none() {
            self.final_script_sig = other.final_script_sig;
        }
        if self.final_script_witness.is_none() {
            self.final_script_witness = other.final_script_witness;
        }
        self.ripemd160_preimages.extend_missing(other.ripemd160_preimages);
        self.sha256_preimages.extend_missing(other.sha256_preimages);
        self.hash160_preimages.extend_missing(other.hash160_preimages);
        self.hash256_preimages.extend_missing(other.hash256_preimages);
        if self.tap_key_sig.is_none() {
            self.tap_key_sig = other.tap_key_sig;
        }
        self.tap_script_sigs.extend_missing(other.tap_script_sigs);
        self.tap_scripts.extend_missing(other.tap_scripts);
        self.tap_key_origins.extend_missing(other.tap_key_origins);
        if self.tap_internal_key.is_none() {
            self.tap_internal_key = other.tap_internal_key;
        }
        if self.tap_merkle_root.is_none() {
            self.tap_merkle_root = other.tap_merkle_root;
        }
        self.proprietary.extend_missing(other.proprietary);
        self.unknown.extend_missing(other.unknown);
    }
}

/// Checks that a wire input carries the fields that version 2 requires.
pub(crate) fn assert_is_valid_v2(input: &WireInput) -> (r: Result<(), V2InvalidError>)
    ensures
        match v2_error(input@) {
            Some(e) => r == Err::<(), V2InvalidError>(e),
            None => r == Ok::<(), V2InvalidError>(()),
        },
{
    if input.previous_txid.is_none() {
        return Err(V2InvalidError::MissingPreviousTxid);
    }
    if input.spent_output_index.is_none() {
        return Err(V2InvalidError::MissingSpentOutputIndex);
    }
    if let Some(t) = input.min_time {
        if t < LOCK_TIME_THRESHOLD {
            return Err(V2InvalidError::InvalidMinTime);
        }
    }
    if let Some(h) = input.min_height {
        if h >= LOCK_TIME_THRESHOLD {
            return Err(V2InvalidError::InvalidMinHeight);
        }
    }
    Ok(())
}

/// Checks that a wire input leaves out the fields that version 0 does not know.
pub(crate) fn assert_is_valid_v0(input: &WireInput) -> (r: Result<(), V0InvalidError>)
    ensures
        match v0_error(input@) {
            Some(e) => r == Err::<(), V0InvalidError>(e),
            None => r == Ok::<(), V0InvalidError>(()),
        },
{
    if input.sequence.is_some() {
        return Err(V0InvalidError::HasSequence);
    }
    if input.min_time.is_some() {
        return Err(V0InvalidError::HasMinTime);
    }
    if input.min_height.is_some() {
        return Err(V0InvalidError::HasMinHeight);
    }
    Ok(())
}

} // verus!
