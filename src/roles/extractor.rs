//! The Extractor role: accepts only a fully finalized document, from which the network
//! transaction is then built.
use vstd::prelude::*;

use crate::error::DetermineLockTimeError;
use crate::types::{LockTime, Txid};
use crate::{Psbt, PsbtView};

verus! {

/// The BIP-370 Extractor role. Its PSBT's inputs are all finalized and its lock time resolves.
pub struct Extractor(Psbt);

impl View for Extractor {
    type V = PsbtView;

    closed spec fn view(&self) -> PsbtView {
        self.0@
    }
}

/// An `Extractor` cannot be made.
#[derive(Clone, Copy, Debug, PartialEq, Eq, Structural)]
pub enum ExtractError {
    /// Some input is not finalized.
    PsbtNotFinalized,
    /// The lock time does not resolve.
    DetermineLockTime(DetermineLockTimeError),
}

/// Every input carries its final scriptSig and witness.
pub open spec fn all_finalized(p: PsbtView) -> bool {
    forall|i: int| 0 <= i < p.inputs.len() ==> (#[trigger] p.inputs[i]).is_finalized()
}

impl Extractor {
    #[verifier::type_invariant]
    spec fn inv(&self) -> bool {
        all_finalized(self.0@) && self.0@.determine_lock_time() is Ok
    }

    /// An extractor for `psbt`, whose inputs must all be finalized and whose lock time must
    /// resolve; else `psbt` is handed back with the error.
    pub fn new(psbt: Psbt) -> (r: Result<Self, (Psbt, ExtractError)>)
        ensures
            r matches Err((p, _)) ==> p == psbt,
            match r {
                Ok(x) => x@ == psbt@ && all_finalized(psbt@) && psbt@.determine_lock_time() is Ok,
                Err((_, ExtractError::PsbtNotFinalized)) => !all_finalized(psbt@),
                Err((_, ExtractError::DetermineLockTime(e))) => all_finalized(psbt@)
                    && psbt@.determine_lock_time() == Err::<LockTime, DetermineLockTimeError>(e),
            },
    {
        let mut i: usize = 0;
        while i < psbt.inputs.len()
            invariant
                0 <= i <= psbt@.inputs.len(),
                forall|j: int| 0 <= j < i ==> (#[trigger] psbt@.inputs[j]).is_finalized(),
            decreases psbt@.inputs.len() - i,
        {
            assert(psbt@.inputs[i as int] == psbt.inputs@[i as int]@);
            if !psbt.inputs[i].is_finalized() {
                return Err((psbt, ExtractError::PsbtNotFinalized));
            }
            i = i + 1;
        }
        match psbt.determine_lock_time() {
            Ok(_) => {},
            Err(e) => return Err((psbt, ExtractError::DetermineLockTime(e))),
        }
        Ok(Extractor(psbt))
    }

    /// The PSBT's unique id.
    pub fn id(&self) -> (r: Txid)
        ensures
            self@.determine_lock_time() is Ok,
            r@ == crate::types::txid_of(self@.id_tx(self@.determine_lock_time()->Ok_0)),
    {
        proof {
            use_type_invariant(self);
        }
        match self.0.id() {
            Ok(id) => id,
            Err(_) => {
                assert(false);
                [0u8; 32]
            },
        }
    }

    /// The finalized PSBT, for the transaction to be built from.
    pub fn psbt(&self) -> (r: &Psbt)
        ensures
            r@ == self@,
            all_finalized(r@),
    {
        proof {
            use_type_invariant(self);
        }
        &self.0
    }
}

} // verus!
