//! Conversion between the wire document and the strict version 2 document.
use vstd::prelude::*;

use crate::input::{self, Input, InputView};
use crate::output::{self, Output, OutputView};
use crate::types::{LockTime, Transaction, TransactionView, TxOut};
use crate::wire::{WireInput, WireInputView, WireOutput, WireOutputView, WirePsbt, WirePsbtView};
use crate::{DetermineLockTimeError, Psbt, PsbtView};

verus! {

broadcast use vstd::array::group_array_axioms, crate::bytes::lemma_bytes_deep_view, crate::bytes::lemma_array_deep_view;

/// A wire PSBT cannot be read as a strict one.
#[derive(Clone, Copy, Debug, PartialEq, Eq, Structural)]
pub enum InvalidError {
    /// Not valid as version 0.
    V0Invalid(V0InvalidError),
    /// Not valid as version 2.
    V2Invalid(V2InvalidError),
    /// A PSBT version other than 0 and 2.
    UnsupportedVersion(u32),
}

/// A wire PSBT is not valid as version 2 requires.
#[derive(Clone, Copy, Debug, PartialEq, Eq, Structural)]
pub enum V2InvalidError {
    /// Field `tx_version` is not set (PSBT_GLOBAL_TX_VERSION).
    MissingTxVersion,
    /// Field `input_count` is not set (PSBT_GLOBAL_INPUT_COUNT).
    MissingInputCount,
    /// Field `output_count` is not set (PSBT_GLOBAL_OUTPUT_COUNT).
    MissingOutputCount,
    /// Field `input_count` differs from the number of inputs.
    InputCountMismatch {
        /// The count the field declares.
        declared: usize,
        /// The number of inputs present.
        found: usize,
    },
    /// Field `output_count` differs from the number of outputs.
    OutputCountMismatch {
        /// The count the field declares.
        declared: usize,
        /// The number of outputs present.
        found: usize,
    },
    /// Field `fallback_lock_time` holds a height at or above the lock-time threshold, or a time
    /// below it.
    InvalidFallbackLockTime,
    /// The input at this index is not valid as version 2.
    InvalidInput(usize, input::V2InvalidError),
    /// The output at this index is not valid as version 2.
    InvalidOutput(usize, output::V2InvalidError),
}

/// A wire PSBT is not valid as version 0 requires.
#[derive(Clone, Copy, Debug, PartialEq, Eq, Structural)]
pub enum V0InvalidError {
    /// Field `unsigned_tx` is not set (PSBT_GLOBAL_UNSIGNED_TX).
    MissingUnsignedTx,
    /// The unsigned transaction has another number of inputs than the PSBT.
    InputCountMismatch {
        /// The number of inputs of the unsigned transaction.
        declared: usize,
        /// The number of PSBT inputs present.
        found: usize,
    },
    /// The unsigned transaction has another number of outputs than the PSBT.
    OutputCountMismatch {
        /// The number of outputs of the unsigned transaction.
        declared: usize,
        /// The number of PSBT outputs present.
        found: usize,
    },
    /// The input at this index is not valid as version 0.
    InvalidInput(usize, input::V0InvalidError),
    /// The output at this index is not valid as version 0.
    InvalidOutput(usize, output::V0InvalidError),
}

/// The first position at which `f` finds an error, with that error.
pub open spec fn first_error<T, E>(s: Seq<T>, f: spec_fn(T) -> Option<E>) -> Option<(int, E)>
    decreases s.len(),
{
    if s.len() == 0 {
        None
    } else {
        match first_error(s.drop_last(), f) {
            Some(p) => Some(p),
            None => match f(s.last()) {
                Some(e) => Some((s.len() - 1, e)),
                None => None,
            },
        }
    }
}

/// An error found in a prefix is the first error of the whole sequence.
pub proof fn lemma_first_error_prefix<T, E>(s: Seq<T>, k: int, f: spec_fn(T) -> Option<E>)
    requires
        0 <= k <= s.len(),
        first_error(s.subrange(0, k), f) is Some,
    ensures
        first_error(s, f) == first_error(s.subrange(0, k), f),
    decreases s.len() - k,
{
    if k < s.len() {
        assert(s.subrange(0, k + 1).drop_last() =~= s.subrange(0, k));
        lemma_first_error_prefix(s, k + 1, f);
    } else {
        assert(s.subrange(0, k) =~= s);
    }
}

/// No error anywhere means no first error, and the other way round.
pub proof fn lemma_first_error_none<T, E>(s: Seq<T>, f: spec_fn(T) -> Option<E>)
    ensures
        first_error(s, f) is None <==> forall|i: int| 0 <= i < s.len() ==> f(#[trigger] s[i]) is None,
        first_error(s, f) matches Some((i, e)) ==> 0 <= i < s.len() && f(s[i]) == Some(e),
    decreases s.len(),
{
    if s.len() > 0 {
        lemma_first_error_none(s.drop_last(), f);
        assert forall|i: int| 0 <= i < s.len() - 1 implies #[trigger] s.drop_last()[i] == s[i] by {}
        if first_error(s, f) is None {
            assert forall|i: int| 0 <= i < s.len() implies f(#[trigger] s[i]) is None by {
                if i < s.len() - 1 {
                    assert(s.drop_last()[i] == s[i]);
                }
            }
        }
    }
}

pub open spec fn input_v2_error() -> spec_fn(WireInputView) -> Option<input::V2InvalidError> {
    |w: WireInputView| input::v2_error(w)
}

pub open spec fn output_v2_error() -> spec_fn(WireOutputView) -> Option<output::V2InvalidError> {
    |w: WireOutputView| output::v2_error(w)
}

pub open spec fn input_v0_error() -> spec_fn(WireInputView) -> Option<input::V0InvalidError> {
    |w: WireInputView| input::v0_error(w)
}

pub open spec fn output_v0_error() -> spec_fn(WireOutputView) -> Option<output::V0InvalidError> {
    |w: WireOutputView| output::v0_error(w)
}

/// The error, if any, of reading `w` as a version 2 PSBT.
pub open spec fn v2_error(w: WirePsbtView) -> Option<V2InvalidError> {
    if w.tx_version is None {
        Some(V2InvalidError::MissingTxVersion)
    } else if w.input_count is None {
        Some(V2InvalidError::MissingInputCount)
    } else if w.output_count is None {
        Some(V2InvalidError::MissingOutputCount)
    } else if w.input_count.unwrap() != w.inputs.len() {
        Some(
            V2InvalidError::InputCountMismatch {
                declared: w.input_count.unwrap(),
                found: w.inputs.len() as usize,
            },
        )
    } else if w.output_count.unwrap() != w.outputs.len() {
        Some(
            V2InvalidError::OutputCountMismatch {
                declared: w.output_count.unwrap(),
                found: w.outputs.len() as usize,
            },
        )
    } else if w.fallback_lock_time matches Some(l) && !l.valid() {
        Some(V2InvalidError::InvalidFallbackLockTime)
    } else if let Some((i, e)) = first_error(w.inputs, input_v2_error()) {
        Some(V2InvalidError::InvalidInput(i as usize, e))
    } else if let Some((i, e)) = first_error(w.outputs, output_v2_error()) {
        Some(V2InvalidError::InvalidOutput(i as usize, e))
    } else {
        None
    }
}

/// The strict document that a wire PSBT valid for version 2 stands for.
pub open spec fn spec_from_v2(w: WirePsbtView) -> PsbtView {
    PsbtView {
        tx_version: w.tx_version.unwrap(),
        fallback_lock_time: w.fallback_lock_time.unwrap_or(LockTime::Blocks(0)),
        input_count: w.input_count.unwrap(),
        output_count: w.output_count.unwrap(),
        tx_modifiable_flags: w.tx_modifiable_flags.unwrap_or(0),
        xpub: w.xpub,
        proprietary: w.proprietary,
        unknown: w.unknown,
        inputs: w.inputs.map_values(|i: WireInputView| input::spec_from_v2(i)),
        outputs: w.outputs.map_values(|o: WireOutputView| output::spec_from_v2(o)),
    }
}

/// The error, if any, of reading `w` as a version 0 PSBT.
pub open spec fn v0_error(w: WirePsbtView) -> Option<V0InvalidError> {
    if w.unsigned_tx is None {
        Some(V0InvalidError::MissingUnsignedTx)
    } else if w.unsigned_tx.unwrap().input.len() != w.inputs.len() {
        Some(
            V0InvalidError::InputCountMismatch {
                declared: w.unsigned_tx.unwrap().input.len() as usize,
                found: w.inputs.len() as usize,
            },
        )
    } else if w.unsigned_tx.unwrap().output.len() != w.outputs.len() {
        Some(
            V0InvalidError::OutputCountMismatch {
                declared: w.unsigned_tx.unwrap().output.len() as usize,
                found: w.outputs.len() as usize,
            },
        )
    } else if let Some((i, e)) = first_error(w.inputs, input_v0_error()) {
        Some(V0InvalidError::InvalidInput(i as usize, e))
    } else if let Some((i, e)) = first_error(w.outputs, output_v0_error()) {
        Some(V0InvalidError::InvalidOutput(i as usize, e))
    } else {
        None
    }
}

/// The strict document that a wire PSBT valid for version 0 stands for: the transaction
/// version comes from the unsigned transaction, which also gives each input its spent output
/// and each output its amount and script; the version 2 fields take their defaults (fallback
/// lock time zero, no modifiable flag, no sequence or lock-time requirement on any input).
pub open spec fn spec_from_v0(w: WirePsbtView) -> PsbtView {
    let tx = w.unsigned_tx.unwrap();
    PsbtView {
        tx_version: tx.version,
        fallback_lock_time: LockTime::Blocks(0),
        input_count: tx.input.len() as usize,
        output_count: tx.output.len() as usize,
        tx_modifiable_flags: 0,
        xpub: w.xpub,
        proprietary: w.proprietary,
        unknown: w.unknown,
        inputs: Seq::new(w.inputs.len(), |i: int| input::spec_from_v0(w.inputs[i], tx.input[i].previous_output)),
        outputs: Seq::new(w.outputs.len(), |i: int| output::spec_from_v0(w.outputs[i], tx.output[i])),
    }
}

/// The result of reading a wire PSBT of either version.
pub open spec fn spec_from_psbt(w: WirePsbtView) -> Result<PsbtView, InvalidError> {
    if w.version == 0 {
        match v0_error(w) {
            Some(e) => Err(InvalidError::V0Invalid(e)),
            None => Ok(spec_from_v0(w)),
        }
    } else if w.version == 2 {
        match v2_error(w) {
            Some(e) => Err(InvalidError::V2Invalid(e)),
            None => Ok(spec_from_v2(w)),
        }
    } else {
        Err(InvalidError::UnsupportedVersion(w.version))
    }
}

impl PsbtView {
    /// The version 2 wire form of this document.
    pub open spec fn to_v2(self) -> WirePsbtView {
        WirePsbtView {
            version: 2,
            unsigned_tx: None,
            tx_version: Some(self.tx_version),
            fallback_lock_time: Some(self.fallback_lock_time),
            input_count: Some(self.input_count),
            output_count: Some(self.output_count),
            tx_modifiable_flags: Some(self.tx_modifiable_flags),
            xpub: self.xpub,
            proprietary: self.proprietary,
            unknown: self.unknown,
            inputs: self.inputs.map_values(|i: InputView| i.to_v2()),
            outputs: self.outputs.map_values(|o: OutputView| o.to_v2()),
        }
    }

    /// The version 0 wire form of this document, whose lock time resolves to `lock_time`.
    pub open spec fn to_v0(self, lock_time: LockTime) -> WirePsbtView {
        WirePsbtView {
            version: 0,
            unsigned_tx: Some(self.unsigned_tx(lock_time)),
            tx_version: None,
            fallback_lock_time: None,
            input_count: None,
            output_count: None,
            tx_modifiable_flags: None,
            xpub: self.xpub,
            proprietary: self.proprietary,
            unknown: self.unknown,
            inputs: self.inputs.map_values(|i: InputView| i.to_v0()),
            outputs: self.outputs.map_values(|o: OutputView| o.to_v0()),
        }
    }
}

/// Converts each input to its wire form for version 2, or for version 0 if `v0`.
fn inputs_to_wire(inputs: Vec<Input>, v0: bool) -> (r: Vec<WireInput>)
    ensures
        r@.map_values(|w: WireInput| w@) == inputs@.map_values(
            |i: Input| if v0 { i@.to_v0() } else { i@.to_v2() },
        ),
{
    let ghost all = inputs@;
    let mut rest = inputs;
    let mut r: Vec<WireInput> = Vec::new();
    while rest.len() > 0
        invariant
            r@.len() + rest@.len() == all.len(),
            rest@ == all.subrange(r@.len() as int, all.len() as int),
            forall|j: int|
                0 <= j < r@.len() ==> (#[trigger] r@[j])@ == (if v0 { all[j]@.to_v0() } else { all[j]@.to_v2() }),
        decreases rest@.len(),
    {
        let i = rest.remove(0);
        assert(i == all[r@.len() as int]);
        if v0 {
            r.push(i.to_v0());
        } else {
            r.push(i.to_v2());
        }
    }
    assert(r@.map_values(|w: WireInput| w@) =~= all.map_values(
        |i: Input| if v0 { i@.to_v0() } else { i@.to_v2() },
    ));
    r
}

/// Converts each output to its wire form for version 2, or for version 0 if `v0`.
fn outputs_to_wire(outputs: Vec<Output>, v0: bool) -> (r: Vec<WireOutput>)
    ensures
        r@.map_values(|w: WireOutput| w@) == outputs@.map_values(
            |o: Output| if v0 { o@.to_v0() } else { o@.to_v2() },
        ),
{
    let ghost all = outputs@;
    let mut rest = outputs;
    let mut r: Vec<WireOutput> = Vec::new();
    while rest.len() > 0
        invariant
            r@.len() + rest@.len() == all.len(),
            rest@ == all.subrange(r@.len() as int, all.len() as int),
            forall|j: int|
                0 <= j < r@.len() ==> (#[trigger] r@[j])@ == (if v0 { all[j]@.to_v0() } else { all[j]@.to_v2() }),
        decreases rest@.len(),
    {
        let o = rest.remove(0);
        assert(o == all[r@.len() as int]);
        if v0 {
            r.push(o.to_v0());
        } else {
            r.push(o.to_v2());
        }
    }
    assert(r@.map_values(|w: WireOutput| w@) =~= all.map_values(
        |o: Output| if v0 { o@.to_v0() } else { o@.to_v2() },
    ));
    r
}

impl Psbt {
    /// Reads a wire PSBT of version 0 or 2 as a strict document.
    pub fn from_psbt(psbt: WirePsbt) -> (r: Result<Psbt, InvalidError>)
        ensures
            match r {
                Ok(p) => spec_from_psbt(psbt@) == Ok::<PsbtView, InvalidError>(p@),
                Err(e) => spec_from_psbt(psbt@) == Err::<PsbtView, InvalidError>(e),
            },
    {
        if psbt.version == 0 {
            match Self::from_v0(psbt) {
                Ok(p) => Ok(p),
                Err(e) => Err(InvalidError::V0Invalid(e)),
            }
        } else if psbt.version == 2 {
            match Self::from_v2(psbt) {
                Ok(p) => Ok(p),
                Err(e) => Err(InvalidError::V2Invalid(e)),
            }
        } else {
            Err(InvalidError::UnsupportedVersion(psbt.version))
        }
    }

    /// Reads a version 2 wire PSBT.
    pub fn from_v2(psbt: WirePsbt) -> (r: Result<Psbt, V2InvalidError>)
        ensures
            match r {
                Ok(p) => v2_error(psbt@) is None && p@ == spec_from_v2(psbt@),
                Err(e) => v2_error(psbt@) == Some(e),
            },
    {
        let ghost w = psbt@;
        let tx_version = match psbt.tx_version {
            Some(v) => v,
            None => return Err(V2InvalidError::MissingTxVersion),
        };
        let input_count = match psbt.input_count {
            Some(n) => n,
            None => return Err(V2InvalidError::MissingInputCount),
        };
        let output_count = match psbt.output_count {
            Some(n) => n,
            None => return Err(V2InvalidError::MissingOutputCount),
        };
        if input_count != psbt.inputs.len() {
            return Err(V2InvalidError::InputCountMismatch { declared: input_count, found: psbt.inputs.len() });
        }
        if output_count != psbt.outputs.len() {
            return Err(V2InvalidError::OutputCountMismatch { declared: output_count, found: psbt.outputs.len() });
        }
        if let Some(l) = &psbt.fallback_lock_time {
            if !l.is_valid() {
                return Err(V2InvalidError::InvalidFallbackLockTime);
            }
        }
        let mut rest = psbt.inputs;
        let mut inputs: Vec<Input> = Vec::new();
        let mut i: usize = 0;
        while rest.len() > 0
            invariant
                w == psbt@,
                w.fallback_lock_time matches Some(l) ==> l.valid(),
                w.tx_version == Some(tx_version),
                w.input_count == Some(input_count),
                w.output_count == Some(output_count),
                input_count == w.inputs.len(),
                output_count == w.outputs.len(),
                i == inputs@.len(),
                i + rest@.len() == w.inputs.len(),
                w.inputs.len() <= usize::MAX,
                forall|j: int| 0 <= j < rest@.len() ==> (#[trigger] rest@[j])@ == w.inputs[i + j],
                first_error(w.inputs.subrange(0, i as int), input_v2_error()) is None,
                forall|j: int| 0 <= j < i ==> (#[trigger] inputs@[j])@ == input::spec_from_v2(w.inputs[j]),
            decreases rest@.len(),
        {
            let ghost old_rest = rest@;
            let x = rest.remove(0);
            assert(x@ == w.inputs[i as int]);
            assert forall|j: int| 0 <= j < rest@.len() implies (#[trigger] rest@[j])@ == w.inputs[i + 1 + j] by {
                assert(rest@[j] == old_rest[j + 1]);
            }
            assert(w.inputs.subrange(0, i + 1).drop_last() =~= w.inputs.subrange(0, i as int));
            assert(w.inputs.subrange(0, i + 1).last() == w.inputs[i as int]);
            match Input::from_v2(x) {
                Ok(inp) => {
                    assert(input_v2_error()(w.inputs[i as int]) is None);
                    inputs.push(inp);
                },
                Err(e) => {
                    proof {
                        assert(input_v2_error()(w.inputs[i as int]) == Some(e));
                        assert(first_error(w.inputs.subrange(0, i + 1), input_v2_error()) == Some((i as int, e)));
                        lemma_first_error_prefix(w.inputs, i + 1, input_v2_error());
                    }
                    return Err(V2InvalidError::InvalidInput(i, e));
                },
            }
            i = i + 1;
        }
        assert(w.inputs.subrange(0, i as int) =~= w.inputs);
        let mut rest = psbt.outputs;
        let mut outputs: Vec<Output> = Vec::new();
        let mut i: usize = 0;
        while rest.len() > 0
            invariant
                w == psbt@,
                w.fallback_lock_time matches Some(l) ==> l.valid(),
                w.tx_version == Some(tx_version),
                w.input_count == Some(input_count),
                w.output_count == Some(output_count),
                input_count == w.inputs.len(),
                output_count == w.outputs.len(),
                first_error(w.inputs, input_v2_error()) is None,
                forall|j: int| 0 <= j < input_count ==> (#[trigger] inputs@[j])@ == input::spec_from_v2(w.inputs[j]),
                inputs@.len() == input_count,
                i == outputs@.len(),
                i + rest@.len() == w.outputs.len(),
                w.outputs.len() <= usize::MAX,
                forall|j: int| 0 <= j < rest@.len() ==> (#[trigger] rest@[j])@ == w.outputs[i + j],
                first_error(w.outputs.subrange(0, i as int), output_v2_error()) is None,
                forall|j: int| 0 <= j < i ==> (#[trigger] outputs@[j])@ == output::spec_from_v2(w.outputs[j]),
            decreases rest@.len(),
        {
            let ghost old_rest = rest@;
            let x = rest.remove(0);
            assert(x@ == w.outputs[i as int]);
            assert forall|j: int| 0 <= j < rest@.len() implies (#[trigger] rest@[j])@ == w.outputs[i + 1 + j] by {
                assert(rest@[j] == old_rest[j + 1]);
            }
            assert(w.outputs.subrange(0, i + 1).drop_last() =~= w.outputs.subrange(0, i as int));
            assert(w.outputs.subrange(0, i + 1).last() == w.outputs[i as int]);
            match Output::from_v2(x) {
                Ok(o) => {
                    assert(output_v2_error()(w.outputs[i as int]) is None);
                    outputs.push(o);
                },
                Err(e) => {
                    proof {
                        assert(output_v2_error()(w.outputs[i as int]) == Some(e));
                        assert(first_error(w.outputs.subrange(0, i + 1), output_v2_error()) == Some((i as int, e)));
                        lemma_first_error_prefix(w.outputs, i + 1, output_v2_error());
                    }
                    return Err(V2InvalidError::InvalidOutput(i, e));
                },
            }
            i = i + 1;
        }
        assert(w.outputs.subrange(0, i as int) =~= w.outputs);
        let p = Psbt {
            tx_version,
            fallback_lock_time: match psbt.fallback_lock_time {
                Some(l) => l,
                None => LockTime::Blocks(0),
            },
            input_count,
            output_count,
            tx_modifiable_flags: match psbt.tx_modifiable_flags {
                Some(f) => f,
                None => 0,
            },
            xpub: psbt.xpub,
            proprietary: psbt.proprietary,
            unknown: psbt.unknown,
            inputs,
            outputs,
        };
        assert(p@.inputs =~= spec_from_v2(w).inputs);
        assert(p@.outputs =~= spec_from_v2(w).outputs);
        Ok(p)
    }

    /// Reads a version 0 wire PSBT.
    pub fn from_v0(psbt: WirePsbt) -> (r: Result<Psbt, V0InvalidError>)
        ensures
            match r {
                Ok(p) => v0_error(psbt@) is None && p@ == spec_from_v0(psbt@),
                Err(e) => v0_error(psbt@) == Some(e),
            },
    {
        let ghost w = psbt@;
        let tx = match psbt.unsigned_tx {
            Some(tx) => tx,
            None => return Err(V0InvalidError::MissingUnsignedTx),
        };
        let ghost t = tx.deep_view();
        if tx.input.len() != psbt.inputs.len() {
            return Err(V0InvalidError::InputCountMismatch { declared: tx.input.len(), found: psbt.inputs.len() });
        }
        if tx.output.len() != psbt.outputs.len() {
            return Err(V0InvalidError::OutputCountMismatch { declared: tx.output.len(), found: psbt.outputs.len() });
        }
        let mut rest = psbt.inputs;
        let mut inputs: Vec<Input> = Vec::new();
        let mut i: usize = 0;
        while rest.len() > 0
            invariant
                w == psbt@,
                w.unsigned_tx == Some(t),
                w.outputs.len() == t.output.len(),
                i == inputs@.len(),
                i + rest@.len() == w.inputs.len(),
                w.inputs.len() == tx.input@.len(),
                t == tx.deep_view(),
                w.inputs.len() <= usize::MAX,
                forall|j: int| 0 <= j < rest@.len() ==> (#[trigger] rest@[j])@ == w.inputs[i + j],
                first_error(w.inputs.subrange(0, i as int), input_v0_error()) is None,
                forall|j: int| 0 <= j < i ==> (#[trigger] inputs@[j])@ == input::spec_from_v0(w.inputs[j], t.input[j].previous_output),
            decreases rest@.len(),
        {
            let ghost old_rest = rest@;
            let x = rest.remove(0);
            assert(x@ == w.inputs[i as int]);
            assert forall|j: int| 0 <= j < rest@.len() implies (#[trigger] rest@[j])@ == w.inputs[i + 1 + j] by {
                assert(rest@[j] == old_rest[j + 1]);
            }
            assert(w.inputs.subrange(0, i + 1).drop_last() =~= w.inputs.subrange(0, i as int));
            assert(w.inputs.subrange(0, i + 1).last() == w.inputs[i as int]);
            match Input::from_v0(x, &tx.input[i].previous_output) {
                Ok(inp) => {
                    assert(input_v0_error()(w.inputs[i as int]) is None);
                    inputs.push(inp);
                },
                Err(e) => {
                    proof {
                        assert(input_v0_error()(w.inputs[i as int]) == Some(e));
                        assert(first_error(w.inputs.subrange(0, i + 1), input_v0_error()) == Some((i as int, e)));
                        lemma_first_error_prefix(w.inputs, i + 1, input_v0_error());
                    }
                    return Err(V0InvalidError::InvalidInput(i, e));
                },
            }
            i = i + 1;
        }
        assert(w.inputs.subrange(0, i as int) =~= w.inputs);
        let input_count = tx.input.len();
        let output_count = tx.output.len();
        let tx_version = tx.version;
        let mut tx_outputs = tx.output;
        let mut rest = psbt.outputs;
        let mut outputs: Vec<Output> = Vec::new();
        let mut i: usize = 0;
        while rest.len() > 0
            invariant
                w == psbt@,
                w.unsigned_tx == Some(t),
                t.version == tx_version,
                t.input.len() == input_count,
                t.output.len() == output_count,
                input_count == w.inputs.len(),
                first_error(w.inputs, input_v0_error()) is None,
                forall|j: int| 0 <= j < input_count ==> (#[trigger] inputs@[j])@ == input::spec_from_v0(w.inputs[j], t.input[j].previous_output),
                inputs@.len() == input_count,
                i == outputs@.len(),
                i + rest@.len() == w.outputs.len(),
                i + tx_outputs@.len() == w.outputs.len(),
                forall|j: int| 0 <= j < tx_outputs@.len() ==> (#[trigger] tx_outputs@[j]).deep_view() == t.output[i + j],
                t.output.len() == w.outputs.len(),
                w.outputs.len() <= usize::MAX,
                forall|j: int| 0 <= j < rest@.len() ==> (#[trigger] rest@[j])@ == w.outputs[i + j],
                first_error(w.outputs.subrange(0, i as int), output_v0_error()) is None,
                forall|j: int| 0 <= j < i ==> (#[trigger] outputs@[j])@ == output::spec_from_v0(w.outputs[j], t.output[j]),
            decreases rest@.len(),
        {
            let ghost rv = rest@.map_values(|x: WireOutput| x@);
            let ghost old_tx_outputs = tx_outputs@;
            assert(rv[0] == w.outputs[i as int]);
            let x = rest.remove(0);
            let txout = tx_outputs.remove(0);
            assert(txout.deep_view() == t.output[i as int]);
            assert forall|j: int| 0 <= j < tx_outputs@.len() implies (#[trigger] tx_outputs@[j]).deep_view() == t.output[i + 1 + j] by {
                assert(tx_outputs@[j] == old_tx_outputs[j + 1]);
            }
            assert(rest@.map_values(|x: WireOutput| x@) =~= w.outputs.subrange(i + 1, w.outputs.len() as int));
            assert(w.outputs.subrange(0, i + 1).drop_last() =~= w.outputs.subrange(0, i as int));
            assert(w.outputs.subrange(0, i + 1).last() == w.outputs[i as int]);
            match Output::from_v0(x, txout) {
                Ok(o) => {
                    assert(output_v0_error()(w.outputs[i as int]) is None);
                    outputs.push(o);
                },
                Err(e) => {
                    proof {
                        assert(output_v0_error()(w.outputs[i as int]) == Some(e));
                        assert(first_error(w.outputs.subrange(0, i + 1), output_v0_error()) == Some((i as int, e)));
                        lemma_first_error_prefix(w.outputs, i + 1, output_v0_error());
                    }
                    return Err(V0InvalidError::InvalidOutput(i, e));
                },
            }
            i = i + 1;
        }
        assert(w.outputs.subrange(0, i as int) =~= w.outputs);
        let p = Psbt {
            tx_version,
            fallback_lock_time: LockTime::Blocks(0),
            input_count,
            output_count,
            tx_modifiable_flags: 0,
            xpub: psbt.xpub,
            proprietary: psbt.proprietary,
            unknown: psbt.unknown,
            inputs,
            outputs,
        };
        assert(p@.inputs =~= spec_from_v0(w).inputs);
        assert(p@.outputs =~= spec_from_v0(w).outputs);
        Ok(p)
    }

    /// The version 2 wire form of this document.
    pub fn to_psbt(self) -> (r: WirePsbt)
        ensures
            r@ == self@.to_v2(),
    {
        self.to_psbt_v2()
    }

    /// The version 0 wire form of this document, with its unsigned transaction; this needs the
    /// lock time to resolve.
    pub fn to_psbt_v0(self) -> (r: Result<WirePsbt, DetermineLockTimeError>)
        ensures
            match r {
                Ok(w) => self@.determine_lock_time() matches Ok(l) && w@ == self@.to_v0(l),
                Err(e) => self@.determine_lock_time() == Err::<LockTime, DetermineLockTimeError>(e),
            },
    {
        let unsigned_tx = self.unsigned_tx()?;
        let ghost l = self@.determine_lock_time()->Ok_0;
        let w = WirePsbt {
            version: 0,
            unsigned_tx: Some(unsigned_tx),
            tx_version: None,
            fallback_lock_time: None,
            input_count: None,
            output_count: None,
            tx_modifiable_flags: None,
            xpub: self.xpub,
            proprietary: self.proprietary,
            unknown: self.unknown,
            inputs: inputs_to_wire(self.inputs, true),
            outputs: outputs_to_wire(self.outputs, true),
        };
        assert(w@.inputs =~= self@.to_v0(l).inputs);
        assert(w@.outputs =~= self@.to_v0(l).outputs);
        Ok(w)
    }

    /// The version 2 wire form of this document.
    pub fn to_psbt_v2(self) -> (r: WirePsbt)
        ensures
            r@ == self@.to_v2(),
    {
        let w = WirePsbt {
            version: 2,
            unsigned_tx: None,
            tx_version: Some(self.tx_version),
            fallback_lock_time: Some(self.fallback_lock_time),
            input_count: Some(self.input_count),
            output_count: Some(self.output_count),
            tx_modifiable_flags: Some(self.tx_modifiable_flags),
            xpub: self.xpub,
            proprietary: self.proprietary,
            unknown: self.unknown,
            inputs: inputs_to_wire(self.inputs, false),
            outputs: outputs_to_wire(self.outputs, false),
        };
        assert(w@.inputs =~= self@.to_v2().inputs);
        assert(w@.outputs =~= self@.to_v2().outputs);
        w
    }
}

} // verus!
