//! The Combiner: merging two copies of one PSBT that parties worked on apart.
use vstd::prelude::*;

use crate::bytes::{bytes_eq, copy_bytes};
use crate::input::{self, Input, InputView};
use crate::keymap::{lists_map, KeyMap};
use crate::output::{self, Output, OutputView};
use crate::types::{KeySource, KeySourceView};
use crate::{Psbt, PsbtView};

verus! {

broadcast use vstd::array::group_array_axioms, crate::bytes::lemma_bytes_deep_view, crate::bytes::lemma_array_deep_view;

/// Two PSBTs cannot be combined.
#[derive(Clone, Debug, PartialEq, Eq)]
pub enum CombineError {
    /// The transaction versions differ.
    TxVersionMismatch {
        /// This PSBT's transaction version.
        this: i32,
        /// The other PSBT's transaction version.
        that: i32,
    },
    /// The numbers of inputs differ.
    InputCountMismatch {
        /// This PSBT's number of inputs.
        this: usize,
        /// The other PSBT's number of inputs.
        that: usize,
    },
    /// The numbers of outputs differ.
    OutputCountMismatch {
        /// This PSBT's number of outputs.
        this: usize,
        /// The other PSBT's number of outputs.
        that: usize,
    },
    /// The inputs at this index spend different outputs.
    Input(usize, input::CombineError),
    /// The outputs at this index pay differently.
    Output(usize, output::CombineError),
    /// This extended public key has key sources that neither agree nor extend one another.
    InconsistentKeySources(Vec<u8>),
}

/// `s` ends `t`.
pub open spec fn is_suffix(s: Seq<u32>, t: Seq<u32>) -> bool {
    s.len() <= t.len() && forall|i: int| 0 <= i < s.len() ==> t[t.len() - s.len() + i] == #[trigger] s[i]
}

/// Two sources of one extended key can be reconciled: they are the same, or one path is
/// shorter and ends the other.
pub open spec fn key_sources_consistent(x: KeySourceView, y: KeySourceView) -> bool {
    x == y || (x.path.len() < y.path.len() && is_suffix(x.path, y.path)) || (y.path.len()
        < x.path.len() && is_suffix(y.path, x.path))
}

/// The source kept of two consistent ones: the one with the longer path, `x` on a tie.
pub open spec fn merge_key_source(x: KeySourceView, y: KeySourceView) -> KeySourceView {
    if x.path.len() < y.path.len() {
        y
    } else {
        x
    }
}

/// Every extended key that both maps hold has consistent sources.
pub open spec fn xpubs_consistent(a: Map<Seq<u8>, KeySourceView>, b: Map<Seq<u8>, KeySourceView>) -> bool {
    forall|k: Seq<u8>|
        #[trigger] a.contains_key(k) && b.contains_key(k) ==> key_sources_consistent(a[k], b[k])
}

/// The union of two extended key maps, a shared key keeping the merged source.
pub open spec fn combine_xpubs(a: Map<Seq<u8>, KeySourceView>, b: Map<Seq<u8>, KeySourceView>) -> Map<
    Seq<u8>,
    KeySourceView,
> {
    Map::new(
        |k: Seq<u8>| a.contains_key(k) || b.contains_key(k),
        |k: Seq<u8>|
            if a.contains_key(k) && b.contains_key(k) {
                merge_key_source(a[k], b[k])
            } else if a.contains_key(k) {
                a[k]
            } else {
                b[k]
            },
    )
}

impl PsbtView {
    /// Both documents have the same inputs, spending the same outputs in the same order.
    pub open spec fn inputs_match(self, other: PsbtView) -> bool {
        self.inputs.len() == other.inputs.len() && forall|i: int|
            0 <= i < self.inputs.len() ==> (#[trigger] self.inputs[i]).same_outpoint(other.inputs[i])
    }

    /// Both documents have the same outputs, in the same order.
    pub open spec fn outputs_match(self, other: PsbtView) -> bool {
        self.outputs.len() == other.outputs.len() && forall|i: int|
            0 <= i < self.outputs.len() ==> (#[trigger] self.outputs[i]).same_payment(other.outputs[i])
    }

    /// The two documents describe one transaction and their extended keys can be reconciled.
    pub open spec fn can_combine(self, other: PsbtView) -> bool {
        &&& self.tx_version == other.tx_version
        &&& self.inputs_match(other)
        &&& self.outputs_match(other)
        &&& xpubs_consistent(self.xpub, other.xpub)
    }

    /// The merge of this document with `other`: global fields stay, counts follow the merged
    /// sequences, inputs and outputs merge pairwise, maps are united with this document's
    /// entries winning, and extended keys keep the longer consistent source.
    pub open spec fn combine(self, other: PsbtView) -> PsbtView {
        PsbtView {
            tx_version: self.tx_version,
            fallback_lock_time: self.fallback_lock_time,
            input_count: self.inputs.len() as usize,
            output_count: self.outputs.len() as usize,
            tx_modifiable_flags: self.tx_modifiable_flags,
            xpub: combine_xpubs(self.xpub, other.xpub),
            proprietary: other.proprietary.union_prefer_right(self.proprietary),
            unknown: other.unknown.union_prefer_right(self.unknown),
            inputs: Seq::new(self.inputs.len(), |i: int| self.inputs[i].combine(other.inputs[i])),
            outputs: Seq::new(self.outputs.len(), |i: int| self.outputs[i].combine(other.outputs[i])),
        }
    }

    /// `e` is the error of combining this document with `other`; the checks run in this
    /// order: transaction version, counts, inputs, outputs, extended keys.
    pub open spec fn combine_error_is(self, other: PsbtView, e: CombineError) -> bool {
        match e {
            CombineError::TxVersionMismatch { this, that } => this == self.tx_version && that
                == other.tx_version && this != that,
            CombineError::InputCountMismatch { this, that } => self.tx_version == other.tx_version
                && this == self.inputs.len() && that == other.inputs.len() && this != that,
            CombineError::OutputCountMismatch { this, that } => self.tx_version == other.tx_version
                && self.inputs.len() == other.inputs.len() && this == self.outputs.len() && that
                == other.outputs.len() && this != that,
            CombineError::Input(i, ie) => self.tx_version == other.tx_version && self.inputs.len()
                == other.inputs.len() && self.outputs.len() == other.outputs.len() && i
                < self.inputs.len() && (forall|j: int|
                0 <= j < i ==> (#[trigger] self.inputs[j]).same_outpoint(other.inputs[j]))
                && self.inputs[i as int].combine_error_is(other.inputs[i as int], ie),
            CombineError::Output(i, oe) => self.tx_version == other.tx_version && self.inputs_match(
                other,
            ) && self.outputs.len() == other.outputs.len() && i < self.outputs.len() && (forall|
                j: int,
            | 0 <= j < i ==> (#[trigger] self.outputs[j]).same_payment(other.outputs[j]))
                && self.outputs[i as int].combine_error_is(other.outputs[i as int], oe),
            CombineError::InconsistentKeySources(x) => self.tx_version == other.tx_version
                && self.inputs_match(other) && self.outputs_match(other) && self.xpub.contains_key(x@)
                && other.xpub.contains_key(x@) && !key_sources_consistent(
                self.xpub[x@],
                other.xpub[x@],
            ),
        }
    }
}

/// Two derivation paths hold the same child numbers.
fn path_eq(a: &Vec<u32>, b: &Vec<u32>) -> (r: bool)
    ensures
        r == (a@ == b@),
{
    if a.len() != b.len() {
        return false;
    }
    let mut i: usize = 0;
    while i < a.len()
        invariant
            a@.len() == b@.len(),
            0 <= i <= a@.len(),
            forall|j: int| 0 <= j < i ==> a@[j] == b@[j],
        decreases a@.len() - i,
    {
        if a[i] != b[i] {
            return false;
        }
        i = i + 1;
    }
    assert(a@ =~= b@);
    true
}

/// Whether path `s` ends path `t`.
fn path_is_suffix(s: &Vec<u32>, t: &Vec<u32>) -> (r: bool)
    ensures
        r == is_suffix(s@, t@),
{
    if s.len() > t.len() {
        return false;
    }
    let off = t.len() - s.len();
    let mut i: usize = 0;
    while i < s.len()
        invariant
            s@.len() <= t@.len(),
            off + s@.len() == t@.len(),
            t@.len() <= usize::MAX,
            0 <= i <= s@.len(),
            forall|j: int| 0 <= j < i ==> t@[t@.len() - s@.len() + j] == #[trigger] s@[j],
        decreases s@.len() - i,
    {
        if t[off + i] != s[i] {
            return false;
        }
        i = i + 1;
    }
    true
}

/// Whether two sources of one extended key can be reconciled.
fn key_sources_agree(x: &KeySource, y: &KeySource) -> (r: bool)
    ensures
        r == key_sources_consistent(x.deep_view(), y.deep_view()),
{
    let same = bytes_eq(x.fingerprint.as_slice(), y.fingerprint.as_slice()) && path_eq(&x.path, &y.path);
    if same {
        return true;
    }
    if x.path.len() < y.path.len() {
        path_is_suffix(&x.path, &y.path)
    } else if y.path.len() < x.path.len() {
        path_is_suffix(&y.path, &x.path)
    } else {
        false
    }
}

impl Psbt {
    /// Checks that this document and `other` can be combined.
    pub fn check_combinable(&self, other: &Psbt) -> (r: Result<(), CombineError>)
        ensures
            match r {
                Ok(()) => self@.can_combine(other@),
                Err(e) => self@.combine_error_is(other@, e) && !self@.can_combine(other@),
            },
    {
        if self.tx_version != other.tx_version {
            return Err(CombineError::TxVersionMismatch { this: self.tx_version, that: other.tx_version });
        }
        if self.inputs.len() != other.inputs.len() {
            return Err(CombineError::InputCountMismatch { this: self.inputs.len(), that: other.inputs.len() });
        }
        if self.outputs.len() != other.outputs.len() {
            return Err(CombineError::OutputCountMismatch { this: self.outputs.len(), that: other.outputs.len() });
        }
        let mut i: usize = 0;
        while i < self.inputs.len()
            invariant
                self.inputs@.len() == other.inputs@.len(),
                self.outputs@.len() == other.outputs@.len(),
                self.tx_version == other.tx_version,
                0 <= i <= self.inputs@.len(),
                forall|j: int| 0 <= j < i ==> (#[trigger] self@.inputs[j]).same_outpoint(other@.inputs[j]),
            decreases self.inputs@.len() - i,
        {
            assert(self@.inputs[i as int] == self.inputs@[i as int]@);
            assert(other@.inputs[i as int] == other.inputs@[i as int]@);
            match self.inputs[i].check_same_outpoint(&other.inputs[i]) {
                Ok(()) => {},
                Err(e) => return Err(CombineError::Input(i, e)),
            }
            i = i + 1;
        }
        let mut i: usize = 0;
        while i < self.outputs.len()
            invariant
                self.inputs@.len() == other.inputs@.len(),
                self.outputs@.len() == other.outputs@.len(),
                self.tx_version == other.tx_version,
                self@.inputs_match(other@),
                0 <= i <= self.outputs@.len(),
                forall|j: int| 0 <= j < i ==> (#[trigger] self@.outputs[j]).same_payment(other@.outputs[j]),
            decreases self.outputs@.len() - i,
        {
            assert(self@.outputs[i as int] == self.outputs@[i as int]@);
            assert(other@.outputs[i as int] == other.outputs@[i as int]@);
            match self.outputs[i].check_same_payment(&other.outputs[i]) {
                Ok(()) => {},
                Err(e) => return Err(CombineError::Output(i, e)),
            }
            i = i + 1;
        }
        let entries = other.xpub.entries();
        let mut i: usize = 0;
        while i < entries.len()
            invariant
                self.tx_version == other.tx_version,
                self@.inputs_match(other@),
                self@.outputs_match(other@),
                lists_map(entries@, other@.xpub),
                0 <= i <= entries@.len(),
                forall|j: int|
                    0 <= j < i && self@.xpub.contains_key((#[trigger] entries@[j]).0@) ==> key_sources_consistent(
                        self@.xpub[entries@[j].0@],
                        entries@[j].1.deep_view(),
                    ),
            decreases entries@.len() - i,
        {
            let key = &entries[i].0;
            let source = &entries[i].1;
            match self.xpub.get(key.as_slice()) {
                Some(mine) => {
                    if !key_sources_agree(mine, source) {
                        let x = copy_bytes(key);
                        return Err(CombineError::InconsistentKeySources(x));
                    }
                },
                None => {},
            }
            i = i + 1;
        }
        assert forall|k: Seq<u8>| #[trigger] self@.xpub.contains_key(k) && other@.xpub.contains_key(k) implies key_sources_consistent(self@.xpub[k], other@.xpub[k]) by {
            let j = choose|j: int| 0 <= j < entries@.len() && entries@[j].0@ == k;
        }
        Ok(())
    }

    /// Merges `other` into this document; the two must be combinable.
    fn merge(self, other: Psbt) -> (r: Psbt)
        requires
            self@.can_combine(other@),
        ensures
            r@ == self@.combine(other@),
    {
        let ghost a = self@;
        let ghost b = other@;
        let n = self.inputs.len();
        let mut mine = self.inputs;
        let mut theirs = other.inputs;
        let mut inputs: Vec<Input> = Vec::new();
        while mine.len() > 0
            invariant
                n == a.inputs.len(),
                a.inputs.len() == b.inputs.len(),
                inputs@.len() + mine@.len() == n,
                theirs@.len() == mine@.len(),
                forall|j: int| 0 <= j < mine@.len() ==> (#[trigger] mine@[j])@ == a.inputs[inputs@.len() + j],
                forall|j: int| 0 <= j < theirs@.len() ==> (#[trigger] theirs@[j])@ == b.inputs[inputs@.len() + j],
                forall|j: int| 0 <= j < inputs@.len() ==> (#[trigger] inputs@[j])@ == a.inputs[j].combine(b.inputs[j]),
            decreases mine@.len(),
        {
            let ghost (m0, t0) = (mine@, theirs@);
            let mut x = mine.remove(0);
            let y = theirs.remove(0);
            assert forall|j: int| 0 <= j < mine@.len() implies (#[trigger] mine@[j])@ == a.inputs[inputs@.len() + 1 + j] by {
                assert(mine@[j] == m0[j + 1]);
            }
            assert forall|j: int| 0 <= j < theirs@.len() implies (#[trigger] theirs@[j])@ == b.inputs[inputs@.len() + 1 + j] by {
                assert(theirs@[j] == t0[j + 1]);
            }
            x.merge_fields(y);
            inputs.push(x);
        }
        let m = self.outputs.len();
        let mut mine = self.outputs;
        let mut theirs = other.outputs;
        let mut outputs: Vec<Output> = Vec::new();
        while mine.len() > 0
            invariant
                m == a.outputs.len(),
                a.outputs.len() == b.outputs.len(),
                outputs@.len() + mine@.len() == m,
                theirs@.len() == mine@.len(),
                forall|j: int| 0 <= j < mine@.len() ==> (#[trigger] mine@[j])@ == a.outputs[outputs@.len() + j],
                forall|j: int| 0 <= j < theirs@.len() ==> (#[trigger] theirs@[j])@ == b.outputs[outputs@.len() + j],
                forall|j: int| 0 <= j < outputs@.len() ==> (#[trigger] outputs@[j])@ == a.outputs[j].combine(b.outputs[j]),
            decreases mine@.len(),
        {
            let ghost (m0, t0) = (mine@, theirs@);
            let mut x = mine.remove(0);
            let y = theirs.remove(0);
            assert forall|j: int| 0 <= j < mine@.len() implies (#[trigger] mine@[j])@ == a.outputs[outputs@.len() + 1 + j] by {
                assert(mine@[j] == m0[j + 1]);
            }
            assert forall|j: int| 0 <= j < theirs@.len() implies (#[trigger] theirs@[j])@ == b.outputs[outputs@.len() + 1 + j] by {
                assert(theirs@[j] == t0[j + 1]);
            }
            x.merge_fields(y);
            outputs.push(x);
        }
        let xpub = merge_xpubs(self.xpub, other.xpub);
        let mut proprietary = self.proprietary;
        proprietary.extend_missing(other.proprietary);
        let mut unknown = self.unknown;
        unknown.extend_missing(other.unknown);
        let r = Psbt {
            tx_version: self.tx_version,
            fallback_lock_time: self.fallback_lock_time,
            input_count: inputs.len(),
            output_count: outputs.len(),
            tx_modifiable_flags: self.tx_modifiable_flags,
            xpub,
            proprietary,
            unknown,
            inputs,
            outputs,
        };
        assert(r@.inputs =~= a.combine(b).inputs);
        assert(r@.outputs =~= a.combine(b).outputs);
        r
    }

    /// Combines this document with `other` as BIP-174 describes; on an error this document
    /// is left as it was.
    pub fn combine(&mut self, other: Self) -> (r: Result<(), CombineError>)
        ensures
            match r {
                Ok(()) => old(self)@.can_combine(other@) && final(self)@ == old(self)@.combine(other@),
                Err(e) => old(self)@.combine_error_is(other@, e) && !old(self)@.can_combine(other@)
                    && *final(self) == *old(self),
            },
    {
        self.check_combinable(&other)?;
        let mut this = Psbt::empty();
        std::mem::swap(self, &mut this);
        *self = this.merge(other);
        Ok(())
    }

    /// Combines this document with `other`, consuming both.
    pub fn combine_with(self, other: Self) -> (r: Result<Psbt, CombineError>)
        ensures
            match r {
                Ok(p) => self@.can_combine(other@) && p@ == self@.combine(other@),
                Err(e) => self@.combine_error_is(other@, e) && !self@.can_combine(other@),
            },
    {
        self.check_combinable(&other)?;
        Ok(self.merge(other))
    }
}

/// Unites two extended key maps, a shared key keeping the source with the longer path.
fn merge_xpubs(mine: KeyMap<KeySource>, other: KeyMap<KeySource>) -> (r: KeyMap<KeySource>)
    ensures
        r@ == combine_xpubs(mine@, other@),
{
    let ghost start = mine@;
    let ghost om = other@;
    let mut xpub = mine;
    let mut rest = other.into_entries();
    let ghost theirs = rest@;
    let ghost mut i: int = 0;
    while rest.len() > 0
        invariant
            0 <= i <= theirs.len(),
            lists_map(theirs, om),
            rest@ == theirs.subrange(i, theirs.len() as int),
            forall|k: Seq<u8>|
                #[trigger] xpub@.contains_key(k) <==> (start.contains_key(k) || exists|j: int|
                    0 <= j < i && theirs[j].0@ == k),
            forall|k: Seq<u8>|
                #[trigger] start.contains_key(k) && !(exists|j: int| 0 <= j < i && theirs[j].0@ == k)
                    ==> xpub@[k] == start[k],
            forall|j: int|
                0 <= j < i ==> xpub@[(#[trigger] theirs[j]).0@] == (if start.contains_key(theirs[j].0@) {
                    merge_key_source(start[theirs[j].0@], theirs[j].1.deep_view())
                } else {
                    theirs[j].1.deep_view()
                }),
        decreases rest@.len(),
    {
        let (k, v) = rest.remove(0);
        assert(theirs[i] == (k, v));
        assert(!(exists|j: int| 0 <= j < i && theirs[j].0@ == k@));
        let take = match xpub.get(k.as_slice()) {
            Some(held) => held.path.len() < v.path.len(),
            None => true,
        };
        if take {
            xpub.insert(k, v);
        }
        proof {
            i = i + 1;
        }
    }
    assert(xpub@ =~= combine_xpubs(start, om)) by {
        assert forall|k: Seq<u8>| #[trigger] xpub@.contains_key(k) implies xpub@[k] == combine_xpubs(start, om)[k] by {
            if exists|j: int| 0 <= j < i && theirs[j].0@ == k {
                let j = choose|j: int| 0 <= j < i && theirs[j].0@ == k;
                assert(om.contains_key(k));
            } else {
                assert(!om.contains_key(k)) by {
                    if om.contains_key(k) {
                        let j = choose|j: int| 0 <= j < theirs.len() && theirs[j].0@ == k;
                    }
                }
            }
        }
        assert forall|k: Seq<u8>| #[trigger] om.contains_key(k) implies xpub@.contains_key(k) by {
            let j = choose|j: int| 0 <= j < theirs.len() && theirs[j].0@ == k;
        }
    }
    xpub
}

/// Combines two PSBTs as BIP-174 describes; the result does not depend on their order when
/// every field and entry that both carry agrees.
pub fn combine(this: Psbt, that: Psbt) -> (r: Result<Psbt, CombineError>)
    ensures
        match r {
            Ok(p) => this@.can_combine(that@) && p@ == this@.combine(that@),
            Err(e) => this@.combine_error_is(that@, e) && !this@.can_combine(that@),
        },
{
    this.combine_with(that)
}

} // verus!
