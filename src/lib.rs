//! Partially signed bitcoin transactions, version 2 (BIP-174 and BIP-370): the document, its
//! version adapter, the combiner, lock-time resolution and the workflow roles.
use vstd::prelude::*;

pub mod adapter;
pub mod bytes;
pub mod combine;
pub mod error;
pub mod input;
pub mod keymap;
pub mod laws;
pub mod output;
pub mod roles;

pub mod types;
pub mod wire;

pub use crate::adapter::{InvalidError, V0InvalidError, V2InvalidError};
pub use crate::combine::{combine, CombineError};
pub use crate::error::{
    DetermineLockTimeError, FundingUtxoError, InputsNotModifiableError, OutputsNotModifiableError,
    PsbtNotModifiableError,
};
pub use crate::input::{Input, InputView};
pub use crate::keymap::KeyMap;
pub use crate::roles::{
    Constructor, Creator, Extractor, Finalizer, InputsOnlyModifiable, Mod, Modifiable,
    OutputsOnlyModifiable, Signer, Updater,
};
pub use crate::output::{Output, OutputView};

use crate::types::{
    KeySource, KeySourceView, LockTime, OutPointView, Transaction, TransactionView, TxIn, TxInView,
    Txid, SEQUENCE_FINAL,
};

verus! {

broadcast use vstd::array::group_array_axioms, crate::bytes::lemma_bytes_deep_view, crate::bytes::lemma_array_deep_view;

/// The inputs modifiable flag: inputs may be added or removed.
pub const INPUTS_MODIFIABLE: u8 = 0x01;

/// The outputs modifiable flag: outputs may be added or removed.
pub const OUTPUTS_MODIFIABLE: u8 = 0x02;

/// The has SIGHASH_SINGLE flag: some signature pairs its input with the output of the same
/// index, so that pairing must be kept.
pub const SIGHASH_SINGLE: u8 = 0x04;

/// A version 2 PSBT.
///
/// The PSBT version itself is not held: it is 2 unless the document is converted to the
/// version 0 wire form.
pub struct Psbt {
    /// The version number of the transaction being built.
    pub tx_version: i32,
    /// The transaction lock time to use if no input requires one.
    pub fallback_lock_time: LockTime,
    /// The number of inputs.
    pub input_count: usize,
    /// The number of outputs.
    pub output_count: usize,
    /// A bitfield of the modification flags; 0 (nothing modifiable) if omitted.
    pub tx_modifiable_flags: u8,
    /// Extended public key to the master fingerprint and derivation path it comes from.
    pub xpub: KeyMap<KeySource>,
    /// Proprietary key-value records.
    pub proprietary: KeyMap<Vec<u8>>,
    /// Unknown key-value records.
    pub unknown: KeyMap<Vec<u8>>,
    /// The inputs.
    pub inputs: Vec<Input>,
    /// The outputs.
    pub outputs: Vec<Output>,
}

/// A PSBT seen as plain values: byte strings as sequences, maps as maps.
pub struct PsbtView {
    pub tx_version: i32,
    pub fallback_lock_time: LockTime,
    pub input_count: usize,
    pub output_count: usize,
    pub tx_modifiable_flags: u8,
    pub xpub: Map<Seq<u8>, KeySourceView>,
    pub proprietary: Map<Seq<u8>, Seq<u8>>,
    pub unknown: Map<Seq<u8>, Seq<u8>>,
    pub inputs: Seq<InputView>,
    pub outputs: Seq<OutputView>,
}

impl View for Psbt {
    type V = PsbtView;

    open spec fn view(&self) -> PsbtView {
        PsbtView {
            tx_version: self.tx_version,
            fallback_lock_time: self.fallback_lock_time,
            input_count: self.input_count,
            output_count: self.output_count,
            tx_modifiable_flags: self.tx_modifiable_flags,
            xpub: self.xpub@,
            proprietary: self.proprietary@,
            unknown: self.unknown@,
            inputs: self.inputs@.map_values(|i: Input| i@),
            outputs: self.outputs@.map_values(|o: Output| o@),
        }
    }
}

pub open spec fn inputs_modifiable(flags: u8) -> bool {
    flags & INPUTS_MODIFIABLE != 0
}

pub open spec fn outputs_modifiable(flags: u8) -> bool {
    flags & OUTPUTS_MODIFIABLE != 0
}

pub open spec fn sighash_single(flags: u8) -> bool {
    flags & SIGHASH_SINGLE != 0
}

/// The larger of two optional values; a missing value counts as smaller than any other.
pub open spec fn opt_max(a: Option<u32>, b: Option<u32>) -> Option<u32> {
    match (a, b) {
        (Some(x), Some(y)) => Some(if x >= y { x } else { y }),
        (Some(x), None) => Some(x),
        (None, y) => y,
    }
}

/// The largest `min_height` that the inputs set, if any sets one.
pub open spec fn max_min_height(s: Seq<InputView>) -> Option<u32>
    decreases s.len(),
{
    if s.len() == 0 {
        None
    } else {
        opt_max(max_min_height(s.drop_last()), s.last().min_height)
    }
}

/// The largest `min_time` that the inputs set, if any sets one.
pub open spec fn max_min_time(s: Seq<InputView>) -> Option<u32>
    decreases s.len(),
{
    if s.len() == 0 {
        None
    } else {
        opt_max(max_min_time(s.drop_last()), s.last().min_time)
    }
}

/// The lock time that the inputs `s` and the fallback `fallback` resolve to.
pub open spec fn resolve_lock_time(s: Seq<InputView>, fallback: LockTime) -> Result<
    LockTime,
    DetermineLockTimeError,
> {
    if (exists|i: int| 0 <= i < s.len() && (#[trigger] s[i]).requires_time_based_lock_time()) && (exists|
        i: int,
    | 0 <= i < s.len() && (#[trigger] s[i]).requires_height_based_lock_time()) {
        Err(DetermineLockTimeError)
    } else if !(exists|i: int| 0 <= i < s.len() && (#[trigger] s[i]).has_lock_time()) {
        Ok(fallback)
    } else if forall|i: int|
        0 <= i < s.len() ==> (#[trigger] s[i]).is_satisfied_with_height_based_lock_time() {
        Ok(LockTime::Blocks(max_min_height(s).unwrap()))
    } else {
        Ok(LockTime::Seconds(max_min_time(s).unwrap()))
    }
}

/// The unsigned transaction's input for a strict input.
pub open spec fn tx_in_of(i: InputView) -> TxInView {
    TxInView {
        previous_output: OutPointView { txid: i.previous_txid, vout: i.spent_output_index },
        script_sig: Seq::empty(),
        sequence: i.sequence.unwrap_or(SEQUENCE_FINAL),
        witness: Seq::empty(),
    }
}

impl PsbtView {
    /// The input and output counts match the sequences.
    pub open spec fn wf(self) -> bool {
        self.input_count == self.inputs.len() && self.output_count == self.outputs.len()
    }

    /// The fallback and every input's requirements hold heights and times in their ranges.
    pub open spec fn lock_times_valid(self) -> bool {
        self.fallback_lock_time.valid() && forall|i: int|
            0 <= i < self.inputs.len() ==> (#[trigger] self.inputs[i]).lock_times_valid()
    }

    pub open spec fn determine_lock_time(self) -> Result<LockTime, DetermineLockTimeError> {
        resolve_lock_time(self.inputs, self.fallback_lock_time)
    }

    /// The unsigned transaction with lock time `lock_time`.
    pub open spec fn unsigned_tx(self, lock_time: LockTime) -> TransactionView {
        TransactionView {
            version: self.tx_version,
            lock_time: lock_time.spec_to_consensus(),
            input: self.inputs.map_values(|i: InputView| tx_in_of(i)),
            output: self.outputs.map_values(|o: OutputView| o.tx_out()),
        }
    }

    /// The transaction whose id identifies this PSBT: the unsigned transaction with every
    /// sequence set to zero, since updaters may change sequences.
    pub open spec fn id_tx(self, lock_time: LockTime) -> TransactionView {
        let tx = self.unsigned_tx(lock_time);
        TransactionView {
            input: tx.input.map_values(|i: TxInView| TxInView { sequence: 0, ..i }),
            ..tx
        }
    }

    /// This document with the flags replaced by `flags`.
    pub open spec fn with_flags(self, flags: u8) -> PsbtView {
        PsbtView { tx_modifiable_flags: flags, ..self }
    }
}

/// A missing `min_height` everywhere means no maximum, and one present means a maximum that
/// some input sets and no input exceeds.
pub proof fn lemma_max_min_height(s: Seq<InputView>)
    ensures
        max_min_height(s) is None <==> forall|i: int| 0 <= i < s.len() ==> (#[trigger] s[i]).min_height is None,
        max_min_height(s) matches Some(h) ==> (exists|i: int| 0 <= i < s.len() && (#[trigger] s[i]).min_height == Some(h)),
        max_min_height(s) matches Some(h) ==> (forall|i: int| 0 <= i < s.len() && (#[trigger] s[i]).min_height is Some ==> s[i].min_height.unwrap() <= h),
    decreases s.len(),
{
    if s.len() > 0 {
        let t = s.drop_last();
        lemma_max_min_height(t);
        assert forall|i: int| 0 <= i < t.len() implies #[trigger] t[i] == s[i] by {}
        if max_min_height(s) is None {
            assert forall|i: int| 0 <= i < s.len() implies (#[trigger] s[i]).min_height is None by {
                if i < t.len() {
                    assert(t[i] == s[i]);
                }
            }
        }
        if let Some(h) = max_min_height(s) {
            if max_min_height(t) == Some(h) {
                let i = choose|i: int| 0 <= i < t.len() && (#[trigger] t[i]).min_height == Some(h);
                assert(s[i] == t[i]);
            } else {
                assert(s[s.len() - 1].min_height == Some(h));
            }
            assert forall|i: int| 0 <= i < s.len() && (#[trigger] s[i]).min_height is Some implies s[i].min_height.unwrap() <= h by {
                if i < t.len() {
                    assert(t[i] == s[i]);
                }
            }
        }
    }
}

/// The same facts for `min_time`.
pub proof fn lemma_max_min_time(s: Seq<InputView>)
    ensures
        max_min_time(s) is None <==> forall|i: int| 0 <= i < s.len() ==> (#[trigger] s[i]).min_time is None,
        max_min_time(s) matches Some(t) ==> (exists|i: int| 0 <= i < s.len() && (#[trigger] s[i]).min_time == Some(t)),
        max_min_time(s) matches Some(t) ==> (forall|i: int| 0 <= i < s.len() && (#[trigger] s[i]).min_time is Some ==> s[i].min_time.unwrap() <= t),
    decreases s.len(),
{
    if s.len() > 0 {
        let t = s.drop_last();
        lemma_max_min_time(t);
        assert forall|i: int| 0 <= i < t.len() implies #[trigger] t[i] == s[i] by {}
        if max_min_time(s) is None {
            assert forall|i: int| 0 <= i < s.len() implies (#[trigger] s[i]).min_time is None by {
                if i < t.len() {
                    assert(t[i] == s[i]);
                }
            }
        }
        if let Some(m) = max_min_time(s) {
            if max_min_time(t) == Some(m) {
                let i = choose|i: int| 0 <= i < t.len() && (#[trigger] t[i]).min_time == Some(m);
                assert(s[i] == t[i]);
            } else {
                assert(s[s.len() - 1].min_time == Some(m));
            }
            assert forall|i: int| 0 <= i < s.len() && (#[trigger] s[i]).min_time is Some implies s[i].min_time.unwrap() <= m by {
                if i < t.len() {
                    assert(t[i] == s[i]);
                }
            }
        }
    }
}

/// Two input sequences with the same lock-time requirements, input by input, resolve alike.
pub proof fn lemma_resolve_same_requirements(s: Seq<InputView>, t: Seq<InputView>, fallback: LockTime)
    requires
        s.len() == t.len(),
        forall|i: int| 0 <= i < s.len() ==> (#[trigger] s[i]).min_time == t[i].min_time && s[i].min_height == t[i].min_height,
    ensures
        resolve_lock_time(s, fallback) == resolve_lock_time(t, fallback),
        max_min_height(s) == max_min_height(t),
        max_min_time(s) == max_min_time(t),
    decreases s.len(),
{
    if s.len() > 0 {
        lemma_resolve_same_requirements(s.drop_last(), t.drop_last(), fallback);
    }
    if (exists|i: int| 0 <= i < s.len() && (#[trigger] s[i]).requires_time_based_lock_time()) {
        let i = choose|i: int| 0 <= i < s.len() && (#[trigger] s[i]).requires_time_based_lock_time();
        assert(t[i].requires_time_based_lock_time());
    }
    if (exists|i: int| 0 <= i < t.len() && (#[trigger] t[i]).requires_time_based_lock_time()) {
        let i = choose|i: int| 0 <= i < t.len() && (#[trigger] t[i]).requires_time_based_lock_time();
        assert(s[i].requires_time_based_lock_time());
    }
    if (exists|i: int| 0 <= i < s.len() && (#[trigger] s[i]).requires_height_based_lock_time()) {
        let i = choose|i: int| 0 <= i < s.len() && (#[trigger] s[i]).requires_height_based_lock_time();
        assert(t[i].requires_height_based_lock_time());
    }
    if (exists|i: int| 0 <= i < t.len() && (#[trigger] t[i]).requires_height_based_lock_time()) {
        let i = choose|i: int| 0 <= i < t.len() && (#[trigger] t[i]).requires_height_based_lock_time();
        assert(s[i].requires_height_based_lock_time());
    }
    if (exists|i: int| 0 <= i < s.len() && (#[trigger] s[i]).has_lock_time()) {
        let i = choose|i: int| 0 <= i < s.len() && (#[trigger] s[i]).has_lock_time();
        assert(t[i].has_lock_time());
    }
    if (exists|i: int| 0 <= i < t.len() && (#[trigger] t[i]).has_lock_time()) {
        let i = choose|i: int| 0 <= i < t.len() && (#[trigger] t[i]).has_lock_time();
        assert(s[i].has_lock_time());
    }
    assert((forall|i: int| 0 <= i < s.len() ==> (#[trigger] s[i]).is_satisfied_with_height_based_lock_time())
        == (forall|i: int| 0 <= i < t.len() ==> (#[trigger] t[i]).is_satisfied_with_height_based_lock_time()));
}

impl Psbt {
    /// A document with no input, no output and no entry: transaction version 2, lock time
    /// zero, nothing modifiable.
    pub fn empty() -> (r: Psbt)
        ensures
            r@ == (PsbtView {
                tx_version: 2,
                fallback_lock_time: LockTime::Blocks(0),
                input_count: 0,
                output_count: 0,
                tx_modifiable_flags: 0,
                xpub: Map::empty(),
                proprietary: Map::empty(),
                unknown: Map::empty(),
                inputs: Seq::empty(),
                outputs: Seq::empty(),
            }),
            r.inputs@.len() == 0,
            r.outputs@.len() == 0,
    {
        let r = Psbt {
            tx_version: 2,
            fallback_lock_time: LockTime::Blocks(0),
            input_count: 0,
            output_count: 0,
            tx_modifiable_flags: 0,
            xpub: KeyMap::new(),
            proprietary: KeyMap::new(),
            unknown: KeyMap::new(),
            inputs: Vec::new(),
            outputs: Vec::new(),
        };
        assert(r@.inputs =~= Seq::empty());
        assert(r@.outputs =~= Seq::empty());
        r
    }

    /// Sets the inputs modifiable flag.
    pub fn set_inputs_modifiable_flag(&mut self)
        ensures
            final(self)@ == old(self)@.with_flags(old(self).tx_modifiable_flags | INPUTS_MODIFIABLE),
            inputs_modifiable(final(self).tx_modifiable_flags),
            outputs_modifiable(final(self).tx_modifiable_flags) == outputs_modifiable(old(self).tx_modifiable_flags),
            sighash_single(final(self).tx_modifiable_flags) == sighash_single(old(self).tx_modifiable_flags),
    {
        let f = self.tx_modifiable_flags;
        assert((f | 1u8) & 1u8 != 0 && ((f | 1u8) & 2u8 != 0) == (f & 2u8 != 0) && ((f | 1u8) & 4u8 != 0) == (f & 4u8 != 0)) by (bit_vector);
        self.tx_modifiable_flags = f | INPUTS_MODIFIABLE;
    }

    /// Sets the outputs modifiable flag.
    pub fn set_outputs_modifiable_flag(&mut self)
        ensures
            final(self)@ == old(self)@.with_flags(old(self).tx_modifiable_flags | OUTPUTS_MODIFIABLE),
            outputs_modifiable(final(self).tx_modifiable_flags),
            inputs_modifiable(final(self).tx_modifiable_flags) == inputs_modifiable(old(self).tx_modifiable_flags),
            sighash_single(final(self).tx_modifiable_flags) == sighash_single(old(self).tx_modifiable_flags),
    {
        let f = self.tx_modifiable_flags;
        assert((f | 2u8) & 2u8 != 0 && ((f | 2u8) & 1u8 != 0) == (f & 1u8 != 0) && ((f | 2u8) & 4u8 != 0) == (f & 4u8 != 0)) by (bit_vector);
        self.tx_modifiable_flags = f | OUTPUTS_MODIFIABLE;
    }

    /// Sets the has SIGHASH_SINGLE flag.
    pub fn set_sighash_single_flag(&mut self)
        ensures
            final(self)@ == old(self)@.with_flags(old(self).tx_modifiable_flags | SIGHASH_SINGLE),
            sighash_single(final(self).tx_modifiable_flags),
            inputs_modifiable(final(self).tx_modifiable_flags) == inputs_modifiable(old(self).tx_modifiable_flags),
            outputs_modifiable(final(self).tx_modifiable_flags) == outputs_modifiable(old(self).tx_modifiable_flags),
    {
        let f = self.tx_modifiable_flags;
        assert((f | 4u8) & 4u8 != 0 && ((f | 4u8) & 1u8 != 0) == (f & 1u8 != 0) && ((f | 4u8) & 2u8 != 0) == (f & 2u8 != 0)) by (bit_vector);
        self.tx_modifiable_flags = f | SIGHASH_SINGLE;
    }

    /// Clears the inputs modifiable flag.
    pub fn clear_inputs_modifiable_flag(&mut self)
        ensures
            final(self)@ == old(self)@.with_flags(old(self).tx_modifiable_flags & !INPUTS_MODIFIABLE),
            !inputs_modifiable(final(self).tx_modifiable_flags),
            outputs_modifiable(final(self).tx_modifiable_flags) == outputs_modifiable(old(self).tx_modifiable_flags),
            sighash_single(final(self).tx_modifiable_flags) == sighash_single(old(self).tx_modifiable_flags),
    {
        let f = self.tx_modifiable_flags;
        assert((f & !1u8) & 1u8 == 0 && ((f & !1u8) & 2u8 != 0) == (f & 2u8 != 0) && ((f & !1u8) & 4u8 != 0) == (f & 4u8 != 0)) by (bit_vector);
        self.tx_modifiable_flags = f & !INPUTS_MODIFIABLE;
    }

    /// Clears the outputs modifiable flag.
    pub fn clear_outputs_modifiable_flag(&mut self)
        ensures
            final(self)@ == old(self)@.with_flags(old(self).tx_modifiable_flags & !OUTPUTS_MODIFIABLE),
            !outputs_modifiable(final(self).tx_modifiable_flags),
            inputs_modifiable(final(self).tx_modifiable_flags) == inputs_modifiable(old(self).tx_modifiable_flags),
            sighash_single(final(self).tx_modifiable_flags) == sighash_single(old(self).tx_modifiable_flags),
    {
        let f = self.tx_modifiable_flags;
        assert((f & !2u8) & 2u8 == 0 && ((f & !2u8) & 1u8 != 0) == (f & 1u8 != 0) && ((f & !2u8) & 4u8 != 0) == (f & 4u8 != 0)) by (bit_vector);
        self.tx_modifiable_flags = f & !OUTPUTS_MODIFIABLE;
    }

    /// Clears the has SIGHASH_SINGLE flag.
    pub fn clear_sighash_single_flag(&mut self)
        ensures
            final(self)@ == old(self)@.with_flags(old(self).tx_modifiable_flags & !SIGHASH_SINGLE),
            !sighash_single(final(self).tx_modifiable_flags),
            inputs_modifiable(final(self).tx_modifiable_flags) == inputs_modifiable(old(self).tx_modifiable_flags),
            outputs_modifiable(final(self).tx_modifiable_flags) == outputs_modifiable(old(self).tx_modifiable_flags),
    {
        let f = self.tx_modifiable_flags;
        assert((f & !4u8) & 4u8 == 0 && ((f & !4u8) & 1u8 != 0) == (f & 1u8 != 0) && ((f & !4u8) & 2u8 != 0) == (f & 2u8 != 0)) by (bit_vector);
        self.tx_modifiable_flags = f & !SIGHASH_SINGLE;
    }

    /// Whether inputs may be added or removed.
    pub fn is_inputs_modifiable(&self) -> (r: bool)
        ensures
            r == inputs_modifiable(self.tx_modifiable_flags),
    {
        self.tx_modifiable_flags & INPUTS_MODIFIABLE != 0
    }

    /// Whether outputs may be added or removed.
    pub fn is_outputs_modifiable(&self) -> (r: bool)
        ensures
            r == outputs_modifiable(self.tx_modifiable_flags),
    {
        self.tx_modifiable_flags & OUTPUTS_MODIFIABLE != 0
    }

    /// Whether some signature uses SIGHASH_SINGLE.
    pub fn has_sighash_single(&self) -> (r: bool)
        ensures
            r == sighash_single(self.tx_modifiable_flags),
    {
        self.tx_modifiable_flags & SIGHASH_SINGLE != 0
    }

    /// Determines the lock time as BIP-370 describes, if the inputs' requirements allow one.
    pub fn determine_lock_time(&self) -> (r: Result<LockTime, DetermineLockTimeError>)
        ensures
            r == self@.determine_lock_time(),
            self@.lock_times_valid() ==> (r matches Ok(l) ==> l.valid()),
    {
        let ghost s = self@.inputs;
        let mut require_time = false;
        let mut require_height = false;
        let mut have_lock_time = false;
        let mut all_height = true;
        let mut max_height: Option<u32> = None;
        let mut max_time: Option<u32> = None;
        let mut i: usize = 0;
        while i < self.inputs.len()
            invariant
                0 <= i <= s.len(),
                s == self@.inputs,
                s.len() == self.inputs@.len(),
                require_time == exists|j: int| 0 <= j < i && (#[trigger] s[j]).requires_time_based_lock_time(),
                require_height == exists|j: int| 0 <= j < i && (#[trigger] s[j]).requires_height_based_lock_time(),
                have_lock_time == exists|j: int| 0 <= j < i && (#[trigger] s[j]).has_lock_time(),
                all_height == forall|j: int| 0 <= j < i ==> (#[trigger] s[j]).is_satisfied_with_height_based_lock_time(),
                max_height == max_min_height(s.subrange(0, i as int)),
                max_time == max_min_time(s.subrange(0, i as int)),
            decreases s.len() - i,
        {
            let input = &self.inputs[i];
            assert(s[i as int] == input@);
            assert(s.subrange(0, i + 1).drop_last() =~= s.subrange(0, i as int));
            require_time = require_time || input.requires_time_based_lock_time();
            require_height = require_height || input.requires_height_based_lock_time();
            have_lock_time = have_lock_time || input.has_lock_time();
            all_height = all_height && input.is_satisfied_with_height_based_lock_time();
            max_height = match (max_height, input.min_height) {
                (Some(x), Some(y)) => Some(if x >= y { x } else { y }),
                (Some(x), None) => Some(x),
                (None, y) => y,
            };
            max_time = match (max_time, input.min_time) {
                (Some(x), Some(y)) => Some(if x >= y { x } else { y }),
                (Some(x), None) => Some(x),
                (None, y) => y,
            };
            i = i + 1;
        }
        assert(s.subrange(0, s.len() as int) =~= s);
        if require_time && require_height {
            return Err(DetermineLockTimeError);
        }
        if !have_lock_time {
            return Ok(self.fallback_lock_time);
        }
        if all_height {
            proof {
                lemma_max_min_height(s);
                let j = choose|j: int| 0 <= j < s.len() && (#[trigger] s[j]).has_lock_time();
                assert(s[j].is_satisfied_with_height_based_lock_time());
                if self@.lock_times_valid() {
                    let k = choose|k: int| 0 <= k < s.len() && (#[trigger] s[k]).min_height == max_min_height(s);
                    assert(s[k].lock_times_valid());
                }
            }
            Ok(LockTime::Blocks(max_height.unwrap()))
        } else {
            proof {
                lemma_max_min_time(s);
                let j = choose|j: int| 0 <= j < s.len() && !(#[trigger] s[j]).is_satisfied_with_height_based_lock_time();
                assert(s[j].min_time is Some);
                if self@.lock_times_valid() {
                    let k = choose|k: int| 0 <= k < s.len() && (#[trigger] s[k]).min_time == max_min_time(s);
                    assert(s[k].lock_times_valid());
                }
            }
            Ok(LockTime::Seconds(max_time.unwrap()))
        }
    }

    /// The unsigned transaction this PSBT stands for, as the version 0 form holds it.
    pub fn unsigned_tx(&self) -> (r: Result<Transaction, DetermineLockTimeError>)
        ensures
            match r {
                Ok(tx) => self@.determine_lock_time() matches Ok(l) && tx.deep_view() == self@.unsigned_tx(l),
                Err(e) => self@.determine_lock_time() == Err::<LockTime, DetermineLockTimeError>(e),
            },
    {
        let lock_time = self.determine_lock_time()?;
        let mut input: Vec<TxIn> = Vec::new();
        let mut i: usize = 0;
        while i < self.inputs.len()
            invariant
                0 <= i <= self.inputs@.len(),
                input@.len() == i,
                forall|j: int| 0 <= j < i ==> (#[trigger] input@[j]).deep_view() == tx_in_of(self.inputs@[j]@),
            decreases self.inputs@.len() - i,
        {
            input.push(self.inputs[i].unsigned_tx_in());
            i = i + 1;
        }
        let mut output: Vec<crate::types::TxOut> = Vec::new();
        let mut i: usize = 0;
        while i < self.outputs.len()
            invariant
                0 <= i <= self.outputs@.len(),
                output@.len() == i,
                forall|j: int| 0 <= j < i ==> (#[trigger] output@[j]).deep_view() == self.outputs@[j]@.tx_out(),
            decreases self.outputs@.len() - i,
        {
            output.push(self.outputs[i].tx_out());
            i = i + 1;
        }
        let tx = Transaction { version: self.tx_version, lock_time: lock_time.to_consensus_u32(), input, output };
        assert(tx.input.deep_view() =~= self@.inputs.map_values(|i: InputView| tx_in_of(i)));
        assert(tx.output.deep_view() =~= self@.outputs.map_values(|o: OutputView| o.tx_out()));
        Ok(tx)
    }

    /// This PSBT's unique id: the txid of its unsigned transaction with all sequences zero.
    pub fn id(&self) -> (r: Result<Txid, DetermineLockTimeError>)
        ensures
            match r {
                Ok(id) => self@.determine_lock_time() matches Ok(l) && id@ == crate::types::txid_of(self@.id_tx(l)),
                Err(e) => self@.determine_lock_time() == Err::<LockTime, DetermineLockTimeError>(e),
            },
    {
        let tx = self.unsigned_tx()?;
        let ghost l = self@.determine_lock_time()->Ok_0;
        let mut input: Vec<TxIn> = Vec::new();
        let mut i: usize = 0;
        while i < tx.input.len()
            invariant
                0 <= i <= tx.input@.len(),
                input@.len() == i,
                forall|j: int| 0 <= j < i ==> (#[trigger] input@[j]).deep_view() == (TxInView { sequence: 0, ..tx.input@[j].deep_view() }),
            decreases tx.input@.len() - i,
        {
            let mut txin = tx.input[i].duplicate();
            txin.sequence = 0;
            input.push(txin);
            i = i + 1;
        }
        let id_tx = Transaction { version: tx.version, lock_time: tx.lock_time, input, output: tx.output };
        assert(id_tx.deep_view() =~= self@.id_tx(l)) by {
            assert(id_tx.input.deep_view() =~= tx.deep_view().input.map_values(|i: TxInView| TxInView { sequence: 0, ..i }));
        }
        Ok(crate::types::compute_txid(&id_tx))
    }
}

} // verus!
