//! The Updater role: attaches scripts, derivations and other data to the document.
use vstd::prelude::*;

use crate::error::{DetermineLockTimeError, IndexOutOfBoundsError};
use crate::types::{LockTime, Txid};
use crate::Psbt;

verus! {

/// The BIP-370 Updater role. The document is public: updating means setting its fields.
pub struct Updater(pub Psbt);

impl Updater {
    /// An updater for `psbt`, whose lock time must resolve, else `psbt` is handed back.
    pub fn from_psbt(psbt: Psbt) -> (r: Result<Self, (Psbt, DetermineLockTimeError)>)
        ensures
            match r {
                Ok(u) => psbt@.determine_lock_time() is Ok && u.0@ == psbt@,
                Err((p, e)) => p == psbt && psbt@.determine_lock_time() == Err::<LockTime, DetermineLockTimeError>(e),
            },
    {
        match psbt.determine_lock_time() {
            Ok(_) => Ok(Updater(psbt)),
            Err(e) => Err((psbt, e)),
        }
    }

    /// The PSBT's unique id.
    pub fn id(&self) -> (r: Txid)
        requires
            self.0@.determine_lock_time() is Ok,
        ensures
            r@ == crate::types::txid_of(self.0@.id_tx(self.0@.determine_lock_time()->Ok_0)),
    {
        match self.0.id() {
            Ok(id) => id,
            Err(_) => {
                assert(false);
                [0u8; 32]
            },
        }
    }

    /// Sets the sequence number of the input at `input_index`.
    pub fn set_sequence(self, n: u32, input_index: usize) -> (r: Result<Updater, IndexOutOfBoundsError>)
        ensures
            match r {
                Ok(u) => input_index < self.0@.inputs.len() && u.0@ == (crate::PsbtView {
                    inputs: self.0@.inputs.update(
                        input_index as int,
                        crate::InputView { sequence: Some(n), ..self.0@.inputs[input_index as int] },
                    ),
                    ..self.0@
                }),
                Err(e) => input_index >= self.0@.inputs.len() && e == (IndexOutOfBoundsError {
                    index: input_index,
                    length: self.0@.inputs.len() as usize,
                }),
            },
    {
        let mut psbt = self.0;
        if input_index >= psbt.inputs.len() {
            return Err(IndexOutOfBoundsError { index: input_index, length: psbt.inputs.len() });
        }
        let mut input = psbt.inputs.remove(input_index);
        input.sequence = Some(n);
        psbt.inputs.insert(input_index, input);
        assert(psbt@.inputs =~= self.0@.inputs.update(
            input_index as int,
            crate::InputView { sequence: Some(n), ..self.0@.inputs[input_index as int] },
        ));
        Ok(Updater(psbt))
    }

    /// The PSBT.
    pub fn into_inner(self) -> (r: Psbt)
        ensures
            r@ == self.0@,
    {
        self.0
    }
}

} // verus!
