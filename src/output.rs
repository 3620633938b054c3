//! A PSBT output in the strict version 2 shape.
use vstd::prelude::*;

use crate::keymap::{options_agree, maps_agree, prefer_first, KeyMap};
use crate::bytes::{bytes_eq_vec, copy_bytes};
use crate::types::{KeySource, KeySourceView, TxOut, TxOutView, Txid};
use crate::wire::{WireOutput, WireOutputView};

verus! {

broadcast use crate::bytes::lemma_bytes_deep_view, crate::bytes::lemma_array_deep_view;

/// A PSBT output whose amount and script are present, as version 2 requires.
pub struct Output {
    /// The output's amount, in satoshis.
    pub amount: u64,
    /// The output's locking script.
    pub script_pubkey: Vec<u8>,
    /// The redeem script, if any.
    pub redeem_script: Option<Vec<u8>>,
    /// The witness script, if any.
    pub witness_script: Option<Vec<u8>>,
    /// Public key to the master fingerprint and derivation path it comes from.
    pub bip32_derivation: KeyMap<KeySource>,
    /// The Taproot internal key.
    pub tap_internal_key: Option<[u8; 32]>,
    /// The Taproot script tree, as encoded in the record.
    pub tap_tree: Option<Vec<u8>>,
    /// X-only public key to the leaf hashes it appears in and its key source.
    pub tap_key_origins: KeyMap<(Vec<Txid>, KeySource)>,
    /// Proprietary key-value records.
    pub proprietary: KeyMap<Vec<u8>>,
    /// Unknown key-value records.
    pub unknown: KeyMap<Vec<u8>>,
}

/// An output seen as plain values: byte strings as sequences, maps as maps.
pub struct OutputView {
    pub amount: u64,
    pub script_pubkey: Seq<u8>,
    pub redeem_script: Option<Seq<u8>>,
    pub witness_script: Option<Seq<u8>>,
    pub bip32_derivation: Map<Seq<u8>, KeySourceView>,
    pub tap_internal_key: Option<Seq<u8>>,
    pub tap_tree: Option<Seq<u8>>,
    pub tap_key_origins: Map<Seq<u8>, (Seq<Seq<u8>>, KeySourceView)>,
    pub proprietary: Map<Seq<u8>, Seq<u8>>,
    pub unknown: Map<Seq<u8>, Seq<u8>>,
}

impl View for Output {
    type V = OutputView;

    open spec fn view(&self) -> OutputView {
        OutputView {
            amount: self.amount,
            script_pubkey: self.script_pubkey.deep_view(),
            redeem_script: self.redeem_script.deep_view(),
            witness_script: self.witness_script.deep_view(),
            bip32_derivation: self.bip32_derivation@,
            tap_internal_key: self.tap_internal_key.deep_view(),
            tap_tree: self.tap_tree.deep_view(),
            tap_key_origins: self.tap_key_origins@,
            proprietary: self.proprietary@,
            unknown: self.unknown@,
        }
    }
}

/// An output is not valid as version 2 requires.
#[derive(Clone, Copy, Debug, PartialEq, Eq, Structural)]
pub enum V2InvalidError {
    /// Field `amount` is not set (PSBT_OUT_AMOUNT).
    MissingAmount,
    /// Field `script_pubkey` is not set (PSBT_OUT_SCRIPT).
    MissingScriptPubkey,
}

/// An output is not valid as version 0 requires.
#[derive(Clone, Copy, Debug, PartialEq, Eq, Structural)]
pub enum V0InvalidError {
    /// Field `amount` must be absent in version 0 (PSBT_OUT_AMOUNT).
    HasAmount,
    /// Field `script_pubkey` must be absent in version 0 (PSBT_OUT_SCRIPT).
    HasScriptPubkey,
}

/// Two outputs that do not pay the same amount to the same script cannot be combined.
#[derive(Clone, Debug, PartialEq, Eq)]
pub enum CombineError {
    /// The amounts differ.
    AmountMismatch {
        /// This output's amount.
        this: u64,
        /// The other output's amount.
        that: u64,
    },
    /// The scripts differ.
    ScriptPubkeyMismatch {
        /// This output's script.
        this: Vec<u8>,
        /// The other output's script.
        that: Vec<u8>,
    },
}

/// The error, if any, of checking a wire output against the version 2 requirements.
pub open spec fn v2_error(w: WireOutputView) -> Option<V2InvalidError> {
    if w.amount is None {
        Some(V2InvalidError::MissingAmount)
    } else if w.script_pubkey is None {
        Some(V2InvalidError::MissingScriptPubkey)
    } else {
        None
    }
}

/// The error, if any, of checking a wire output against the version 0 requirements.
pub open spec fn v0_error(w: WireOutputView) -> Option<V0InvalidError> {
    if w.amount is Some {
        Some(V0InvalidError::HasAmount)
    } else if w.script_pubkey is Some {
        Some(V0InvalidError::HasScriptPubkey)
    } else {
        None
    }
}

/// The strict output that a wire output valid for version 2 stands for.
pub open spec fn spec_from_v2(w: WireOutputView) -> OutputView {
    OutputView {
        amount: w.amount.unwrap(),
        script_pubkey: w.script_pubkey.unwrap(),
        redeem_script: w.redeem_script,
        witness_script: w.witness_script,
        bip32_derivation: w.bip32_derivation,
        tap_internal_key: w.tap_internal_key,
        tap_tree: w.tap_tree,
        tap_key_origins: w.tap_key_origins,
        proprietary: w.proprietary,
        unknown: w.unknown,
    }
}

/// The strict output that a version 0 wire output stands for, given the unsigned
/// transaction's output at the same position.
pub open spec fn spec_from_v0(w: WireOutputView, txout: TxOutView) -> OutputView {
    OutputView {
        amount: txout.value,
        script_pubkey: txout.script_pubkey,
        redeem_script: w.redeem_script,
        witness_script: w.witness_script,
        bip32_derivation: w.bip32_derivation,
        tap_internal_key: w.tap_internal_key,
        tap_tree: w.tap_tree,
        tap_key_origins: w.tap_key_origins,
        proprietary: w.proprietary,
        unknown: w.unknown,
    }
}

impl OutputView {
    /// The wire form of this output for version 2.
    pub open spec fn to_v2(self) -> WireOutputView {
        WireOutputView {
            amount: Some(self.amount),
            script_pubkey: Some(self.script_pubkey),
        redeem_script: self.redeem_script,
        witness_script: self.witness_script,
        bip32_derivation: self.bip32_derivation,
        tap_internal_key: self.tap_internal_key,
        tap_tree: self.tap_tree,
        tap_key_origins: self.tap_key_origins,
        proprietary: self.proprietary,
        unknown: self.unknown,
        }
    }

    /// The wire form of this output for version 0, which keeps amount and script in the
    /// unsigned transaction.
    pub open spec fn to_v0(self) -> WireOutputView {
        WireOutputView {
            amount: None,
            script_pubkey: None,
        redeem_script: self.redeem_script,
        witness_script: self.witness_script,
        bip32_derivation: self.bip32_derivation,
        tap_internal_key: self.tap_internal_key,
        tap_tree: self.tap_tree,
        tap_key_origins: self.tap_key_origins,
        proprietary: self.proprietary,
        unknown: self.unknown,
        }
    }

    /// The transaction output this output stands for.
    pub open spec fn tx_out(self) -> TxOutView {
        TxOutView { value: self.amount, script_pubkey: self.script_pubkey }
    }

    /// Both outputs pay the same amount to the same script.
    pub open spec fn same_payment(self, other: OutputView) -> bool {
        self.amount == other.amount && self.script_pubkey == other.script_pubkey
    }

    /// The merge of this output with `other`: a field present here stays, else `other`'s is
    /// taken; maps are united, this output's entry winning on a shared key.
    pub open spec fn combine(self, other: OutputView) -> OutputView {
        OutputView {
            amount: self.amount,
            script_pubkey: self.script_pubkey,
            redeem_script: prefer_first(self.redeem_script, other.redeem_script),
            witness_script: prefer_first(self.witness_script, other.witness_script),
            bip32_derivation: other.bip32_derivation.union_prefer_right(self.bip32_derivation),
            tap_internal_key: prefer_first(self.tap_internal_key, other.tap_internal_key),
            tap_tree: prefer_first(self.tap_tree, other.tap_tree),
            tap_key_origins: other.tap_key_origins.union_prefer_right(self.tap_key_origins),
            proprietary: other.proprietary.union_prefer_right(self.proprietary),
            unknown: other.unknown.union_prefer_right(self.unknown),
        }
    }

    /// `e` is the error of combining this output with `other`, which pays otherwise.
    pub open spec fn combine_error_is(self, other: OutputView, e: CombineError) -> bool {
        match e {
            CombineError::AmountMismatch { this, that } => this == self.amount && that == other.amount
                && this != that,
            CombineError::ScriptPubkeyMismatch { this, that } => self.amount == other.amount && this@
                == self.script_pubkey && that@ == other.script_pubkey && this@ != that@,
        }
    }

    /// Every field and map entry that both outputs carry has the same value in each.
    pub open spec fn agrees_with(self, other: OutputView) -> bool {
        &&& options_agree(self.redeem_script, other.redeem_script)
        &&& options_agree(self.witness_script, other.witness_script)
        &&& maps_agree(self.bip32_derivation, other.bip32_derivation)
        &&& options_agree(self.tap_internal_key, other.tap_internal_key)
        &&& options_agree(self.tap_tree, other.tap_tree)
        &&& maps_agree(self.tap_key_origins, other.tap_key_origins)
        &&& maps_agree(self.proprietary, other.proprietary)
        &&& maps_agree(self.unknown, other.unknown)
    }
}

/// An output paying `amount` to `script_pubkey`, with no other field set.
pub open spec fn bare_output(amount: u64, script_pubkey: Seq<u8>) -> OutputView {
    OutputView {
        amount,
        script_pubkey,
        redeem_script: None,
        witness_script: None,
        bip32_derivation: Map::empty(),
        tap_internal_key: None,
        tap_tree: None,
        tap_key_origins: Map::empty(),
        proprietary: Map::empty(),
        unknown: Map::empty(),
    }
}

impl Output {
    /// An output paying `amount` to `script_pubkey`, with no other field set.
    pub fn new(amount: u64, script_pubkey: Vec<u8>) -> (r: Output)
        ensures
            r@ == bare_output(amount, script_pubkey@),
    {
        Output {
            amount,
            script_pubkey,
            redeem_script: None,
            witness_script: None,
            bip32_derivation: KeyMap::new(),
            tap_internal_key: None,
            tap_tree: None,
            tap_key_origins: KeyMap::new(),
            proprietary: KeyMap::new(),
            unknown: KeyMap::new(),
        }
    }

    /// Reads a wire output as a strict one, if it carries the version 2 fields.
    pub fn from_v2(output: WireOutput) -> (r: Result<Output, V2InvalidError>)
        ensures
            match r {
                Ok(o) => v2_error(output@) is None && o@ == spec_from_v2(output@),
                Err(e) => v2_error(output@) == Some(e),
            },
    {
        assert_is_valid_v2(&output)?;
        let amount = output.amount.unwrap();
        let script_pubkey = output.script_pubkey.unwrap();
        Ok(Output {
            amount,
            script_pubkey,
            redeem_script: output.redeem_script,
            witness_script: output.witness_script,
            bip32_derivation: output.bip32_derivation,
            tap_internal_key: output.tap_internal_key,
            tap_tree: output.tap_tree,
            tap_key_origins: output.tap_key_origins,
            proprietary: output.proprietary,
            unknown: output.unknown,
        })
    }

    /// Reads a version 0 wire output as a strict one; amount and script come from the
    /// unsigned transaction's output `txout`.
    pub fn from_v0(output: WireOutput, txout: TxOut) -> (r: Result<Output, V0InvalidError>)
        ensures
            match r {
                Ok(o) => v0_error(output@) is None && o@ == spec_from_v0(output@, txout.deep_view()),
                Err(e) => v0_error(output@) == Some(e),
            },
    {
        assert_is_valid_v0(&output)?;
        Ok(Output {
            amount: txout.value,
            script_pubkey: txout.script_pubkey,
            redeem_script: output.redeem_script,
            witness_script: output.witness_script,
            bip32_derivation: output.bip32_derivation,
            tap_internal_key: output.tap_internal_key,
            tap_tree: output.tap_tree,
            tap_key_origins: output.tap_key_origins,
            proprietary: output.proprietary,
            unknown: output.unknown,
        })
    }

    /// The version 2 wire form of this output.
    pub fn to_v2(self) -> (r: WireOutput)
        ensures
            r@ == self@.to_v2(),
    {
        WireOutput {
            amount: Some(self.amount),
            script_pubkey: Some(self.script_pubkey),
            redeem_script: self.redeem_script,
            witness_script: self.witness_script,
            bip32_derivation: self.bip32_derivation,
            tap_internal_key: self.tap_internal_key,
            tap_tree: self.tap_tree,
            tap_key_origins: self.tap_key_origins,
            proprietary: self.proprietary,
            unknown: self.unknown,
        }
    }

    /// The version 0 wire form of this output.
    pub fn to_v0(self) -> (r: WireOutput)
        ensures
            r@ == self@.to_v0(),
    {
        let mut output = self.to_v2();
        output.amount = None;
        output.script_pubkey = None;
        output
    }

    /// The transaction output this output stands for.
    pub fn tx_out(&self) -> (r: TxOut)
        ensures
            r.deep_view() == self@.tx_out(),
    {
        let r = TxOut { value: self.amount, script_pubkey: copy_bytes(&self.script_pubkey) };
        assert(r.script_pubkey.deep_view() =~= self.script_pubkey.deep_view());
        r
    }

    /// Checks that `other` pays the same amount to the same script as this output.
    pub fn check_same_payment(&self, other: &Output) -> (r: Result<(), CombineError>)
        ensures
            match r {
                Ok(()) => self@.same_payment(other@),
                Err(e) => self@.combine_error_is(other@, e) && !self@.same_payment(other@),
            },
    {
        if self.amount != other.amount {
            return Err(CombineError::AmountMismatch { this: self.amount, that: other.amount });
        }
        if !bytes_eq_vec(&self.script_pubkey, &other.script_pubkey) {
            return Err(
                CombineError::ScriptPubkeyMismatch {
                    this: copy_bytes(&self.script_pubkey),
                    that: copy_bytes(&other.script_pubkey),
                },
            );
        }
        Ok(())
    }

    /// Combines this output with `other`, which must pay the same amount to the same script.
    pub fn combine(&mut self, other: Self) -> (r: Result<(), CombineError>)
        ensures
            match r {
                Ok(()) => old(self)@.same_payment(other@) && final(self)@ == old(self)@.combine(other@),
                Err(e) => old(self)@.combine_error_is(other@, e) && !old(self)@.same_payment(other@)
                    && *final(self) == *old(self),
            },
    {
        self.check_same_payment(&other)?;
        self.merge_fields(other);
        Ok(())
    }

    /// Merges the fields of `other` into this output.
    pub(crate) fn merge_fields(&mut self, other: Self)
        ensures
            final(self)@ == old(self)@.combine(other@),
    {
        if self.redeem_script.is_none() {
            self.redeem_script = other.redeem_script;
        }
        if self.witness_script.is_none() {
            self.witness_script = other.witness_script;
        }
        self.bip32_derivation.extend_missing(other.bip32_derivation);
        if self.tap_internal_key.is_none() {
            self.tap_internal_key = other.tap_internal_key;
        }
        if self.tap_tree.is_none() {
            self.tap_tree = other.tap_tree;
        }
        self.tap_key_origins.extend_missing(other.tap_key_origins);
        self.proprietary.extend_missing(other.proprietary);
        self.unknown.extend_missing(other.unknown);
    }
}

/// Checks that a wire output carries the fields that version 2 requires.
pub(crate) fn assert_is_valid_v2(output: &WireOutput) -> (r: Result<(), V2InvalidError>)
    ensures
        match v2_error(output@) {
            Some(e) => r == Err::<(), V2InvalidError>(e),
            None => r == Ok::<(), V2InvalidError>(()),
        },
{
    if output.amount.is_none() {
        return Err(V2InvalidError::MissingAmount);
    }
    if output.script_pubkey.is_none() {
        return Err(V2InvalidError::MissingScriptPubkey);
    }
    Ok(())
}

/// Checks that a wire output leaves out the fields that version 0 keeps in the transaction.
pub(crate) fn assert_is_valid_v0(output: &WireOutput) -> (r: Result<(), V0InvalidError>)
    ensures
        match v0_error(output@) {
            Some(e) => r == Err::<(), V0InvalidError>(e),
            None => r == Ok::<(), V0InvalidError>(()),
        },
{
    if output.amount.is_some() {
        return Err(V0InvalidError::HasAmount);
    }
    if output.script_pubkey.is_some() {
        return Err(V0InvalidError::HasScriptPubkey);
    }
    Ok(())
}

} // verus!
