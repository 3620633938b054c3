//! The Creator role: sets the global parameters of a new, empty PSBT.
use vstd::prelude::*;

use crate::roles::constructor::{Constructor, InputsOnlyModifiable, Modifiable, OutputsOnlyModifiable};
use crate::types::LockTime;
use crate::{inputs_modifiable, outputs_modifiable, sighash_single, Psbt, PsbtView};

verus! {

/// The BIP-370 Creator role.
///
/// Needed directly only where creator and constructor are separate parties, or to set the
/// fallback lock time, the transaction version or the has SIGHASH_SINGLE flag; otherwise a
/// `Constructor` plays both roles.
pub struct Creator(Psbt);

impl View for Creator {
    type V = PsbtView;

    closed spec fn view(&self) -> PsbtView {
        self.0@
    }
}

/// The document a new creator starts from: empty, transaction version 2, lock time zero,
/// inputs and outputs modifiable.
pub open spec fn created() -> PsbtView {
    PsbtView {
        tx_version: 2,
        fallback_lock_time: LockTime::Blocks(0),
        input_count: 0,
        output_count: 0,
        tx_modifiable_flags: 3,
        xpub: Map::empty(),
        proprietary: Map::empty(),
        unknown: Map::empty(),
        inputs: Seq::empty(),
        outputs: Seq::empty(),
    }
}

impl Creator {
    /// A creator with an empty PSBT whose inputs and outputs are modifiable.
    pub fn new() -> (r: Self)
        ensures
            r@ == created(),
    {
        let mut psbt = Psbt::empty();
        psbt.set_inputs_modifiable_flag();
        psbt.set_outputs_modifiable_flag();
        assert(0u8 | 1u8 | 2u8 == 3u8) by (bit_vector);
        Creator(psbt)
    }

    /// Sets the fallback lock time.
    pub fn fallback_lock_time(self, fallback: LockTime) -> (r: Self)
        ensures
            r@ == (PsbtView { fallback_lock_time: fallback, ..self@ }),
    {
        let mut psbt = self.0;
        psbt.fallback_lock_time = fallback;
        Creator(psbt)
    }

    /// Sets the has SIGHASH_SINGLE flag.
    pub fn sighash_single(self) -> (r: Self)
        ensures
            r@ == self@.with_flags(self@.tx_modifiable_flags | crate::SIGHASH_SINGLE),
            sighash_single(r@.tx_modifiable_flags),
    {
        let mut psbt = self.0;
        psbt.set_sighash_single_flag();
        Creator(psbt)
    }

    /// Sets the transaction version; 2 unless set.
    pub fn transaction_version(self, version: i32) -> (r: Self)
        ensures
            r@ == (PsbtView { tx_version: version, ..self@ }),
    {
        let mut psbt = self.0;
        psbt.tx_version = version;
        Creator(psbt)
    }

    /// A constructor that can add inputs and outputs.
    pub fn constructor_modifiable(self) -> (r: Constructor<Modifiable>)
        ensures
            r@ == self@,
    {
        Constructor::<Modifiable>::from_psbt_unchecked(self.0)
    }

    /// A constructor that can add inputs only: the outputs modifiable flag is cleared.
    pub fn constructor_inputs_only_modifiable(self) -> (r: Constructor<InputsOnlyModifiable>)
        ensures
            r@ == self@.with_flags(self@.tx_modifiable_flags & !crate::OUTPUTS_MODIFIABLE),
            !outputs_modifiable(r@.tx_modifiable_flags),
            inputs_modifiable(r@.tx_modifiable_flags) == inputs_modifiable(self@.tx_modifiable_flags),
    {
        let mut psbt = self.0;
        psbt.clear_outputs_modifiable_flag();
        Constructor::<InputsOnlyModifiable>::from_psbt_unchecked(psbt)
    }

    /// A constructor that can add outputs only: the inputs modifiable flag is cleared.
    pub fn constructor_outputs_only_modifiable(self) -> (r: Constructor<OutputsOnlyModifiable>)
        ensures
            r@ == self@.with_flags(self@.tx_modifiable_flags & !crate::INPUTS_MODIFIABLE),
            !inputs_modifiable(r@.tx_modifiable_flags),
            outputs_modifiable(r@.tx_modifiable_flags) == outputs_modifiable(self@.tx_modifiable_flags),
    {
        let mut psbt = self.0;
        psbt.clear_inputs_modifiable_flag();
        Constructor::<OutputsOnlyModifiable>::from_psbt_unchecked(psbt)
    }

    /// The created PSBT, for a constructor that is a separate party.
    pub fn into_inner(self) -> (r: Psbt)
        ensures
            r@ == self@,
    {
        self.0
    }
}

impl Default for Creator {
    fn default() -> (r: Self)
        ensures
            r@ == created(),
    {
        Self::new()
    }
}

} // verus!
