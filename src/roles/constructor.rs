//! The Constructor role: adds inputs and outputs while the document allows it.
use vstd::prelude::*;

use core::marker::PhantomData;

use crate::error::{DetermineLockTimeError, InputsNotModifiableError, OutputsNotModifiableError, PsbtNotModifiableError};
use crate::roles::creator::{created, Creator};
use crate::roles::updater::Updater;
use crate::{inputs_modifiable, outputs_modifiable, Input, Output, Psbt, PsbtView};

verus! {

/// Marker for a constructor that can add inputs and outputs.
pub struct Modifiable;

/// Marker for a constructor that can add inputs only.
pub struct InputsOnlyModifiable;

/// Marker for a constructor that can add outputs only.
pub struct OutputsOnlyModifiable;

/// The constructor markers: inputs, outputs, or both modifiable.
pub trait Mod: super::sealed::Sealed {}

impl Mod for Modifiable {}

impl Mod for InputsOnlyModifiable {}

impl Mod for OutputsOnlyModifiable {}

/// The BIP-370 Constructor role; the marker `T` says which of inputs and outputs it may add.
pub struct Constructor<T>(Psbt, PhantomData<T>);

impl<T> View for Constructor<T> {
    type V = PsbtView;

    closed spec fn view(&self) -> PsbtView {
        self.0@
    }
}

impl<T: Mod> Constructor<T> {
    /// An updater for the constructed PSBT, once no more inputs and outputs may be added;
    /// the lock time must resolve, else this constructor is handed back unchanged.
    pub fn updater(self) -> (r: Result<Updater, (Self, DetermineLockTimeError)>)
        ensures
            match r {
                Ok(u) => self@.determine_lock_time() is Ok && u.0@ == self@.with_flags(
                    self@.tx_modifiable_flags & !crate::INPUTS_MODIFIABLE & !crate::OUTPUTS_MODIFIABLE,
                ),
                Err((c, e)) => c@ == self@ && self@.determine_lock_time() == Err::<crate::types::LockTime, DetermineLockTimeError>(e),
            },
    {
        if let Err(e) = self.0.determine_lock_time() {
            return Err((self, e));
        }
        let c = self.no_more_inputs().no_more_outputs();
        let psbt = c.0;
        proof {
            crate::lemma_resolve_same_requirements(psbt@.inputs, self@.inputs, psbt@.fallback_lock_time);
        }
        match Updater::from_psbt(psbt) {
            Ok(u) => Ok(u),
            Err(_) => {
                assert(false);
                Err((Constructor(Psbt::empty(), PhantomData), DetermineLockTimeError))
            },
        }
    }

    /// Marks that no more inputs may be added.
    pub fn no_more_inputs(self) -> (r: Self)
        ensures
            r@ == self@.with_flags(self@.tx_modifiable_flags & !crate::INPUTS_MODIFIABLE),
            !inputs_modifiable(r@.tx_modifiable_flags),
    {
        let mut psbt = self.0;
        psbt.clear_inputs_modifiable_flag();
        Constructor(psbt, PhantomData)
    }

    /// Marks that no more outputs may be added.
    pub fn no_more_outputs(self) -> (r: Self)
        ensures
            r@ == self@.with_flags(self@.tx_modifiable_flags & !crate::OUTPUTS_MODIFIABLE),
            !outputs_modifiable(r@.tx_modifiable_flags),
    {
        let mut psbt = self.0;
        psbt.clear_outputs_modifiable_flag();
        Constructor(psbt, PhantomData)
    }

    /// The PSBT in its current state; the lock time must resolve, else this constructor is
    /// handed back unchanged.
    pub fn into_inner(self) -> (r: Result<Psbt, (Self, DetermineLockTimeError)>)
        ensures
            match r {
                Ok(p) => self@.determine_lock_time() is Ok && p@ == self@,
                Err((c, e)) => c@ == self@ && self@.determine_lock_time() == Err::<crate::types::LockTime, DetermineLockTimeError>(e),
            },
    {
        match self.0.determine_lock_time() {
            Ok(_) => Ok(self.0),
            Err(e) => Err((self, e)),
        }
    }

    /// Wraps `psbt` without looking at its flags.
    pub(crate) fn from_psbt_unchecked(psbt: Psbt) -> (r: Self)
        ensures
            r@ == psbt@,
    {
        Constructor(psbt, PhantomData)
    }
}

/// The document after `input` is appended; the count follows the sequence.
pub open spec fn with_input(p: PsbtView, input: crate::InputView) -> PsbtView {
    PsbtView { inputs: p.inputs.push(input), input_count: (p.inputs.len() + 1) as usize, ..p }
}

/// The document after `output` is appended; the count follows the sequence.
pub open spec fn with_output(p: PsbtView, output: crate::OutputView) -> PsbtView {
    PsbtView { outputs: p.outputs.push(output), output_count: (p.outputs.len() + 1) as usize, ..p }
}

impl Psbt {
    /// Appends an input.
    pub(crate) fn push_input(&mut self, input: Input)
        ensures
            final(self)@ == with_input(old(self)@, input@),
    {
        self.inputs.push(input);
        self.input_count = self.inputs.len();
        assert(self@.inputs =~= old(self)@.inputs.push(input@));
    }

    /// Appends an output.
    pub(crate) fn push_output(&mut self, output: Output)
        ensures
            final(self)@ == with_output(old(self)@, output@),
    {
        self.outputs.push(output);
        self.output_count = self.outputs.len();
        assert(self@.outputs =~= old(self)@.outputs.push(output@));
    }
}

impl Constructor<Modifiable> {
    /// A constructor with an empty PSBT, for a party that is creator and constructor both.
    pub fn new() -> (r: Self)
        ensures
            r@ == created(),
    {
        Creator::new().constructor_modifiable()
    }

    /// A constructor for a PSBT that a separate creator made; both modifiable flags must be set,
    /// else the PSBT is handed back.
    pub fn from_psbt(psbt: Psbt) -> (r: Result<Self, (Psbt, PsbtNotModifiableError)>)
        ensures
            match r {
                Ok(c) => inputs_modifiable(psbt.tx_modifiable_flags) && outputs_modifiable(psbt.tx_modifiable_flags) && c@ == psbt@,
                Err((p, e)) => p == psbt && if !inputs_modifiable(psbt.tx_modifiable_flags) {
                    e == PsbtNotModifiableError::Inputs(InputsNotModifiableError)
                } else {
                    !outputs_modifiable(psbt.tx_modifiable_flags) && e == PsbtNotModifiableError::Outputs(OutputsNotModifiableError)
                },
            },
    {
        if !psbt.is_inputs_modifiable() {
            Err((psbt, PsbtNotModifiableError::from(InputsNotModifiableError)))
        } else if !psbt.is_outputs_modifiable() {
            Err((psbt, PsbtNotModifiableError::from(OutputsNotModifiableError)))
        } else {
            Ok(Constructor(psbt, PhantomData))
        }
    }

    /// Adds an input.
    pub fn input(self, input: Input) -> (r: Self)
        ensures
            r@ == with_input(self@, input@),
    {
        let mut psbt = self.0;
        psbt.push_input(input);
        Constructor(psbt, PhantomData)
    }

    /// Adds an output.
    pub fn output(self, output: Output) -> (r: Self)
        ensures
            r@ == with_output(self@, output@),
    {
        let mut psbt = self.0;
        psbt.push_output(output);
        Constructor(psbt, PhantomData)
    }
}

impl Default for Constructor<Modifiable> {
    fn default() -> (r: Self)
        ensures
            r@ == created(),
    {
        Self::new()
    }
}

impl Constructor<InputsOnlyModifiable> {
    /// A constructor with an empty PSBT whose outputs are not modifiable.
    pub fn new() -> (r: Self)
        ensures
            r@ == created().with_flags(1),
    {
        let r = Creator::new().constructor_inputs_only_modifiable();
        assert(3u8 & !2u8 == 1u8) by (bit_vector);
        r
    }

    /// A constructor for a PSBT that a separate creator made; its inputs modifiable flag must
    /// be set, else the PSBT is handed back.
    pub fn from_psbt(psbt: Psbt) -> (r: Result<Self, (Psbt, InputsNotModifiableError)>)
        ensures
            match r {
                Ok(c) => inputs_modifiable(psbt.tx_modifiable_flags) && c@ == psbt@,
                Err((p, e)) => p == psbt && !inputs_modifiable(psbt.tx_modifiable_flags),
            },
    {
        if psbt.is_inputs_modifiable() {
            Ok(Constructor(psbt, PhantomData))
        } else {
            Err((psbt, InputsNotModifiableError))
        }
    }

    /// Adds an input.
    pub fn input(self, input: Input) -> (r: Self)
        ensures
            r@ == with_input(self@, input@),
    {
        let mut psbt = self.0;
        psbt.push_input(input);
        Constructor(psbt, PhantomData)
    }
}

impl Default for Constructor<InputsOnlyModifiable> {
    fn default() -> (r: Self)
        ensures
            r@ == created().with_flags(1),
    {
        Self::new()
    }
}

impl Constructor<OutputsOnlyModifiable> {
    /// A constructor with an empty PSBT whose inputs are not modifiable.
    pub fn new() -> (r: Self)
        ensures
            r@ == created().with_flags(2),
    {
        let r = Creator::new().constructor_outputs_only_modifiable();
        assert(3u8 & !1u8 == 2u8) by (bit_vector);
        r
    }

    /// A constructor for a PSBT that a separate creator made; its outputs modifiable flag must
    /// be set, else the PSBT is handed back.
    pub fn from_psbt(psbt: Psbt) -> (r: Result<Self, (Psbt, OutputsNotModifiableError)>)
        ensures
            match r {
                Ok(c) => outputs_modifiable(psbt.tx_modifiable_flags) && c@ == psbt@,
                Err((p, e)) => p == psbt && !outputs_modifiable(psbt.tx_modifiable_flags),
            },
    {
        if psbt.is_outputs_modifiable() {
            Ok(Constructor(psbt, PhantomData))
        } else {
            Err((psbt, OutputsNotModifiableError))
        }
    }

    /// Adds an output.
    pub fn output(self, output: Output) -> (r: Self)
        ensures
            r@ == with_output(self@, output@),
    {
        let mut psbt = self.0;
        psbt.push_output(output);
        Constructor(psbt, PhantomData)
    }
}

impl Default for Constructor<OutputsOnlyModifiable> {
    fn default() -> (r: Self)
        ensures
            r@ == created().with_flags(2),
    {
        Self::new()
    }
}

} // verus!
