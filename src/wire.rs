//! The loosely typed document as the wire codec reads and writes it: every field that
//! depends on the PSBT version is optional here.
use vstd::prelude::*;

use crate::keymap::KeyMap;
use crate::types::{
    EcdsaSignature, EcdsaSignatureView, KeySource, KeySourceView, LockTime, Transaction,
    TransactionView, TxOut, TxOutView, Txid,
};

verus! {

/// A PSBT input of either version.
pub struct WireInput {
    /// The txid of the transaction whose output is spent (version 2 only).
    pub previous_txid: Option<Txid>,
    /// The index of the spent output in that transaction (version 2 only).
    pub spent_output_index: Option<u32>,
    /// The sequence number of this input; if omitted, the final sequence number is assumed.
    pub sequence: Option<u32>,
    /// The minimum Unix time that this input requires as the transaction's lock time.
    pub min_time: Option<u32>,
    /// The minimum block height that this input requires as the transaction's lock time.
    pub min_height: Option<u32>,
    /// The whole transaction this input spends from.
    pub non_witness_utxo: Option<Transaction>,
    /// The output this input spends, for segwit spends.
    pub witness_utxo: Option<TxOut>,
    /// Public key to ECDSA signature, for non-Taproot spends.
    pub partial_sigs: KeyMap<EcdsaSignature>,
    /// The sighash flag that signatures of this input must use.
    pub sighash_type: Option<u32>,
    /// The redeem script, if any.
    pub redeem_script: Option<Vec<u8>>,
    /// The witness script, if any.
    pub witness_script: Option<Vec<u8>>,
    /// Public key to the master fingerprint and derivation path it comes from.
    pub bip32_derivation: KeyMap<KeySource>,
    /// The finalized scriptSig.
    pub final_script_sig: Option<Vec<u8>>,
    /// The finalized witness stack; empty for a legacy spend.
    pub final_script_witness: Option<Vec<Vec<u8>>>,
    /// RIPEMD160 hash to preimage.
    pub ripemd160_preimages: KeyMap<Vec<u8>>,
    /// SHA256 hash to preimage.
    pub sha256_preimages: KeyMap<Vec<u8>>,
    /// HASH160 hash to preimage.
    pub hash160_preimages: KeyMap<Vec<u8>>,
    /// HASH256 hash to preimage.
    pub hash256_preimages: KeyMap<Vec<u8>>,
    /// The Taproot key-path signature, with its sighash byte if any.
    pub tap_key_sig: Option<Vec<u8>>,
    /// X-only public key followed by leaf hash, to Taproot script-path signature.
    pub tap_script_sigs: KeyMap<Vec<u8>>,
    /// Control block to leaf script and leaf version.
    pub tap_scripts: KeyMap<(Vec<u8>, u8)>,
    /// X-only public key to the leaf hashes it appears in and its key source.
    pub tap_key_origins: KeyMap<(Vec<Txid>, KeySource)>,
    /// The Taproot internal key.
    pub tap_internal_key: Option<[u8; 32]>,
    /// The Taproot Merkle root.
    pub tap_merkle_root: Option<[u8; 32]>,
    /// Proprietary key-value records.
    pub proprietary: KeyMap<Vec<u8>>,
    /// Unknown key-value records.
    pub unknown: KeyMap<Vec<u8>>,
}

/// A wire input seen as plain values.
pub struct WireInputView {
    pub previous_txid: Option<Seq<u8>>,
    pub spent_output_index: Option<u32>,
    pub sequence: Option<u32>,
    pub min_time: Option<u32>,
    pub min_height: Option<u32>,
    pub non_witness_utxo: Option<TransactionView>,
    pub witness_utxo: Option<TxOutView>,
    pub partial_sigs: Map<Seq<u8>, EcdsaSignatureView>,
    pub sighash_type: Option<u32>,
    pub redeem_script: Option<Seq<u8>>,
    pub witness_script: Option<Seq<u8>>,
    pub bip32_derivation: Map<Seq<u8>, KeySourceView>,
    pub final_script_sig: Option<Seq<u8>>,
    pub final_script_witness: Option<Seq<Seq<u8>>>,
    pub ripemd160_preimages: Map<Seq<u8>, Seq<u8>>,
    pub sha256_preimages: Map<Seq<u8>, Seq<u8>>,
    pub hash160_preimages: Map<Seq<u8>, Seq<u8>>,
    pub hash256_preimages: Map<Seq<u8>, Seq<u8>>,
    pub tap_key_sig: Option<Seq<u8>>,
    pub tap_script_sigs: Map<Seq<u8>, Seq<u8>>,
    pub tap_scripts: Map<Seq<u8>, (Seq<u8>, u8)>,
    pub tap_key_origins: Map<Seq<u8>, (Seq<Seq<u8>>, KeySourceView)>,
    pub tap_internal_key: Option<Seq<u8>>,
    pub tap_merkle_root: Option<Seq<u8>>,
    pub proprietary: Map<Seq<u8>, Seq<u8>>,
    pub unknown: Map<Seq<u8>, Seq<u8>>,
}

impl View for WireInput {
    type V = WireInputView;

    open spec fn view(&self) -> WireInputView {
        WireInputView {
            previous_txid: self.previous_txid.deep_view(),
            spent_output_index: self.spent_output_index,
            sequence: self.sequence,
            min_time: self.min_time,
            min_height: self.min_height,
            non_witness_utxo: self.non_witness_utxo.deep_view(),
            witness_utxo: self.witness_utxo.deep_view(),
            partial_sigs: self.partial_sigs@,
            sighash_type: self.sighash_type,
            redeem_script: self.redeem_script.deep_view(),
            witness_script: self.witness_script.deep_view(),
            bip32_derivation: self.bip32_derivation@,
            final_script_sig: self.final_script_sig.deep_view(),
            final_script_witness: self.final_script_witness.deep_view(),
            ripemd160_preimages: self.ripemd160_preimages@,
            sha256_preimages: self.sha256_preimages@,
            hash160_preimages: self.hash160_preimages@,
            hash256_preimages: self.hash256_preimages@,
            tap_key_sig: self.tap_key_sig.deep_view(),
            tap_script_sigs: self.tap_script_sigs@,
            tap_scripts: self.tap_scripts@,
            tap_key_origins: self.tap_key_origins@,
            tap_internal_key: self.tap_internal_key.deep_view(),
            tap_merkle_root: self.tap_merkle_root.deep_view(),
            proprietary: self.proprietary@,
            unknown: self.unknown@,
        }
    }
}

/// A PSBT output of either version.
pub struct WireOutput {
    /// The amount in satoshis (version 2 only).
    pub amount: Option<u64>,
    /// The locking script (version 2 only).
    pub script_pubkey: Option<Vec<u8>>,
    /// The redeem script, if any.
    pub redeem_script: Option<Vec<u8>>,
    /// The witness script, if any.
    pub witness_script: Option<Vec<u8>>,
    /// Public key to the master fingerprint and derivation path it comes from.
    pub bip32_derivation: KeyMap<KeySource>,
    /// The Taproot internal key.
    pub tap_internal_key: Option<[u8; 32]>,
    /// The Taproot script tree, as encoded in the record.
    pub tap_tree: Option<Vec<u8>>,
    /// X-only public key to the leaf hashes it appears in and its key source.
    pub tap_key_origins: KeyMap<(Vec<Txid>, KeySource)>,
    /// Proprietary key-value records.
    pub proprietary: KeyMap<Vec<u8>>,
    /// Unknown key-value records.
    pub unknown: KeyMap<Vec<u8>>,
}

/// A wire output seen as plain values.
pub struct WireOutputView {
    pub amount: Option<u64>,
    pub script_pubkey: Option<Seq<u8>>,
    pub redeem_script: Option<Seq<u8>>,
    pub witness_script: Option<Seq<u8>>,
    pub bip32_derivation: Map<Seq<u8>, KeySourceView>,
    pub tap_internal_key: Option<Seq<u8>>,
    pub tap_tree: Option<Seq<u8>>,
    pub tap_key_origins: Map<Seq<u8>, (Seq<Seq<u8>>, KeySourceView)>,
    pub proprietary: Map<Seq<u8>, Seq<u8>>,
    pub unknown: Map<Seq<u8>, Seq<u8>>,
}

impl View for WireOutput {
    type V = WireOutputView;

    open spec fn view(&self) -> WireOutputView {
        WireOutputView {
            amount: self.amount,
            script_pubkey: self.script_pubkey.deep_view(),
            redeem_script: self.redeem_script.deep_view(),
            witness_script: self.witness_script.deep_view(),
            bip32_derivation: self.bip32_derivation@,
            tap_internal_key: self.tap_internal_key.deep_view(),
            tap_tree: self.tap_tree.deep_view(),
            tap_key_origins: self.tap_key_origins@,
            proprietary: self.proprietary@,
            unknown: self.unknown@,
        }
    }
}

/// A PSBT of either version, as the wire codec holds it.
pub struct WirePsbt {
    /// The PSBT version number: 0 or 2.
    pub version: u32,
    /// The unsigned transaction (version 0 only).
    pub unsigned_tx: Option<Transaction>,
    /// The transaction version (version 2 only).
    pub tx_version: Option<i32>,
    /// The lock time to use when no input requires one (version 2 only).
    pub fallback_lock_time: Option<LockTime>,
    /// The number of inputs (version 2 only).
    pub input_count: Option<usize>,
    /// The number of outputs (version 2 only).
    pub output_count: Option<usize>,
    /// The transaction modifiable flags (version 2 only).
    pub tx_modifiable_flags: Option<u8>,
    /// Extended public key to the master fingerprint and derivation path it comes from.
    pub xpub: KeyMap<KeySource>,
    /// Proprietary key-value records.
    pub proprietary: KeyMap<Vec<u8>>,
    /// Unknown key-value records.
    pub unknown: KeyMap<Vec<u8>>,
    /// The inputs.
    pub inputs: Vec<WireInput>,
    /// The outputs.
    pub outputs: Vec<WireOutput>,
}

/// A wire PSBT seen as plain values.
pub struct WirePsbtView {
    pub version: u32,
    pub unsigned_tx: Option<TransactionView>,
    pub tx_version: Option<i32>,
    pub fallback_lock_time: Option<LockTime>,
    pub input_count: Option<usize>,
    pub output_count: Option<usize>,
    pub tx_modifiable_flags: Option<u8>,
    pub xpub: Map<Seq<u8>, KeySourceView>,
    pub proprietary: Map<Seq<u8>, Seq<u8>>,
    pub unknown: Map<Seq<u8>, Seq<u8>>,
    pub inputs: Seq<WireInputView>,
    pub outputs: Seq<WireOutputView>,
}

impl View for WirePsbt {
    type V = WirePsbtView;

    open spec fn view(&self) -> WirePsbtView {
        WirePsbtView {
            version: self.version,
            unsigned_tx: self.unsigned_tx.deep_view(),
            tx_version: self.tx_version,
            fallback_lock_time: self.fallback_lock_time,
            input_count: self.input_count,
            output_count: self.output_count,
            tx_modifiable_flags: self.tx_modifiable_flags,
            xpub: self.xpub@,
            proprietary: self.proprietary@,
            unknown: self.unknown@,
            inputs: self.inputs@.map_values(|i: WireInput| i@),
            outputs: self.outputs@.map_values(|o: WireOutput| o@),
        }
    }
}

} // verus!
