//! Properties of the version adapter, the combiner and lock-time resolution.
use vstd::prelude::*;

use crate::adapter::{first_error, lemma_first_error_none, spec_from_psbt, input_v0_error, input_v2_error, output_v0_error, output_v2_error, v0_error, v2_error};
use crate::combine::{combine_xpubs, is_suffix, key_sources_consistent, xpubs_consistent, CombineError};
use crate::input::InputView;
use crate::keymap::{lemma_union_commutes, lemma_union_self, maps_agree};
use crate::output::OutputView;
use crate::types::{KeySourceView, LockTime, SEQUENCE_FINAL};
use crate::wire::WirePsbtView;
use crate::{lemma_max_min_height, max_min_height, resolve_lock_time, PsbtView};

verus! {

/// Merging two inputs that spend the same output and agree wherever both carry a value does
/// not depend on the order.
pub proof fn lemma_input_combine_commutes(a: InputView, b: InputView)
    requires
        a.same_outpoint(b),
        a.agrees_with(b),
    ensures
        a.combine(b) == b.combine(a),
{
    lemma_union_commutes(a.partial_sigs, b.partial_sigs);
    lemma_union_commutes(a.bip32_derivation, b.bip32_derivation);
    lemma_union_commutes(a.ripemd160_preimages, b.ripemd160_preimages);
    lemma_union_commutes(a.sha256_preimages, b.sha256_preimages);
    lemma_union_commutes(a.hash160_preimages, b.hash160_preimages);
    lemma_union_commutes(a.hash256_preimages, b.hash256_preimages);
    lemma_union_commutes(a.tap_script_sigs, b.tap_script_sigs);
    lemma_union_commutes(a.tap_scripts, b.tap_scripts);
    lemma_union_commutes(a.tap_key_origins, b.tap_key_origins);
    lemma_union_commutes(a.proprietary, b.proprietary);
    lemma_union_commutes(a.unknown, b.unknown);
}

/// Merging two outputs that pay alike and agree wherever both carry a value does not depend
/// on the order.
pub proof fn lemma_output_combine_commutes(a: OutputView, b: OutputView)
    requires
        a.same_payment(b),
        a.agrees_with(b),
    ensures
        a.combine(b) == b.combine(a),
{
    lemma_union_commutes(a.bip32_derivation, b.bip32_derivation);
    lemma_union_commutes(a.tap_key_origins, b.tap_key_origins);
    lemma_union_commutes(a.proprietary, b.proprietary);
    lemma_union_commutes(a.unknown, b.unknown);
}

/// Merging an input with itself gives it back.
pub proof fn lemma_input_combine_self(a: InputView)
    ensures
        a.combine(a) == a,
{
    lemma_union_self(a.partial_sigs);
    lemma_union_self(a.bip32_derivation);
    lemma_union_self(a.ripemd160_preimages);
    lemma_union_self(a.sha256_preimages);
    lemma_union_self(a.hash160_preimages);
    lemma_union_self(a.hash256_preimages);
    lemma_union_self(a.tap_script_sigs);
    lemma_union_self(a.tap_scripts);
    lemma_union_self(a.tap_key_origins);
    lemma_union_self(a.proprietary);
    lemma_union_self(a.unknown);
}

/// Merging an output with itself gives it back.
pub proof fn lemma_output_combine_self(a: OutputView)
    ensures
        a.combine(a) == a,
{
    lemma_union_self(a.bip32_derivation);
    lemma_union_self(a.tap_key_origins);
    lemma_union_self(a.proprietary);
    lemma_union_self(a.unknown);
}

impl PsbtView {
    /// The two documents can be combined and agree on every field and entry that both carry,
    /// the extended keys aside, whose conflicts the combiner resolves by its own rule.
    pub open spec fn compatible(self, other: PsbtView) -> bool {
        &&& self.can_combine(other)
        &&& self.fallback_lock_time == other.fallback_lock_time
        &&& self.tx_modifiable_flags == other.tx_modifiable_flags
        &&& maps_agree(self.proprietary, other.proprietary)
        &&& maps_agree(self.unknown, other.unknown)
        &&& forall|i: int| 0 <= i < self.inputs.len() ==> (#[trigger] self.inputs[i]).agrees_with(other.inputs[i])
        &&& forall|i: int| 0 <= i < self.outputs.len() ==> (#[trigger] self.outputs[i]).agrees_with(other.outputs[i])
    }
}

/// The combiner is commutative: for compatible documents `a` and `b`, combining `a` with `b`
/// gives the same document as combining `b` with `a`, and both succeed.
pub proof fn lemma_combine_commutative(a: PsbtView, b: PsbtView)
    requires
        a.compatible(b),
    ensures
        b.can_combine(a),
        a.combine(b) == b.combine(a),
{
    assert forall|i: int| 0 <= i < b.inputs.len() implies (#[trigger] b.inputs[i]).same_outpoint(a.inputs[i]) by {
        assert(a.inputs[i].same_outpoint(b.inputs[i]));
    }
    assert forall|i: int| 0 <= i < b.outputs.len() implies (#[trigger] b.outputs[i]).same_payment(a.outputs[i]) by {
        assert(a.outputs[i].same_payment(b.outputs[i]));
    }
    assert forall|k: Seq<u8>| #[trigger] b.xpub.contains_key(k) && a.xpub.contains_key(k) implies key_sources_consistent(b.xpub[k], a.xpub[k]) by {
        assert(key_sources_consistent(a.xpub[k], b.xpub[k]));
    }
    assert(combine_xpubs(a.xpub, b.xpub) =~= combine_xpubs(b.xpub, a.xpub)) by {
        assert forall|k: Seq<u8>| #[trigger] a.xpub.contains_key(k) && b.xpub.contains_key(k) implies combine_xpubs(a.xpub, b.xpub)[k] == combine_xpubs(b.xpub, a.xpub)[k] by {
            assert(key_sources_consistent(a.xpub[k], b.xpub[k]));
        }
    }
    lemma_union_commutes(a.proprietary, b.proprietary);
    lemma_union_commutes(a.unknown, b.unknown);
    assert(a.combine(b).inputs =~= b.combine(a).inputs) by {
        assert forall|i: int| 0 <= i < a.inputs.len() implies #[trigger] a.combine(b).inputs[i] == b.combine(a).inputs[i] by {
            lemma_input_combine_commutes(a.inputs[i], b.inputs[i]);
        }
    }
    assert(a.combine(b).outputs =~= b.combine(a).outputs) by {
        assert forall|i: int| 0 <= i < a.outputs.len() implies #[trigger] a.combine(b).outputs[i] == b.combine(a).outputs[i] by {
            lemma_output_combine_commutes(a.outputs[i], b.outputs[i]);
        }
    }
}

/// Combining a well-formed document with itself succeeds and gives it back.
pub proof fn lemma_combine_idempotent(a: PsbtView)
    requires
        a.wf(),
    ensures
        a.can_combine(a),
        a.combine(a) == a,
{
    assert(xpubs_consistent(a.xpub, a.xpub));
    assert(combine_xpubs(a.xpub, a.xpub) =~= a.xpub);
    lemma_union_self(a.proprietary);
    lemma_union_self(a.unknown);
    assert(a.combine(a).inputs =~= a.inputs) by {
        assert forall|i: int| 0 <= i < a.inputs.len() implies #[trigger] a.combine(a).inputs[i] == a.inputs[i] by {
            lemma_input_combine_self(a.inputs[i]);
        }
    }
    assert(a.combine(a).outputs =~= a.outputs) by {
        assert forall|i: int| 0 <= i < a.outputs.len() implies #[trigger] a.combine(a).outputs[i] == a.outputs[i] by {
            lemma_output_combine_self(a.outputs[i]);
        }
    }
}

/// On a shared extended key whose source in `a` has a shorter path that ends the path of
/// its source in `b`, the combination keeps `b`'s source, whichever document comes first.
pub proof fn lemma_xpub_longer_path_kept(a: PsbtView, b: PsbtView, k: Seq<u8>)
    requires
        a.xpub.contains_key(k),
        b.xpub.contains_key(k),
        a.xpub[k].path.len() < b.xpub[k].path.len(),
        is_suffix(a.xpub[k].path, b.xpub[k].path),
    ensures
        key_sources_consistent(a.xpub[k], b.xpub[k]),
        a.combine(b).xpub[k] == b.xpub[k],
        b.combine(a).xpub[k] == b.xpub[k],
{
}

/// Two sources of one extended key whose paths have the same length but differ cannot be
/// reconciled, so the documents cannot be combined.
pub proof fn lemma_xpub_conflict(a: PsbtView, b: PsbtView, k: Seq<u8>)
    requires
        a.xpub.contains_key(k),
        b.xpub.contains_key(k),
        a.xpub[k].path.len() == b.xpub[k].path.len(),
        a.xpub[k].path != b.xpub[k].path,
    ensures
        !a.can_combine(b),
        !b.can_combine(a),
{
}

/// An input that requires a time-based lock time and another that requires a height-based
/// one make resolution fail.
pub proof fn lemma_lock_time_conflict(s: Seq<InputView>, fallback: LockTime, i: int, j: int)
    requires
        0 <= i < s.len(),
        0 <= j < s.len(),
        s[i].requires_time_based_lock_time(),
        s[j].requires_height_based_lock_time(),
    ensures
        resolve_lock_time(s, fallback) is Err,
{
}

/// Where some input sets a lock time and every input that does sets only `min_height`, the
/// lock time is the largest such height.
pub proof fn lemma_lock_time_max_height(s: Seq<InputView>, fallback: LockTime)
    requires
        exists|i: int| 0 <= i < s.len() && (#[trigger] s[i]).has_lock_time(),
        forall|i: int| 0 <= i < s.len() && (#[trigger] s[i]).has_lock_time() ==> s[i].requires_height_based_lock_time(),
    ensures
        resolve_lock_time(s, fallback) matches Ok(LockTime::Blocks(h)) && (exists|i: int|
            0 <= i < s.len() && (#[trigger] s[i]).min_height == Some(h)) && (forall|i: int|
            0 <= i < s.len() && (#[trigger] s[i]).min_height is Some ==> s[i].min_height.unwrap() <= h),
{
    assert(!exists|i: int| 0 <= i < s.len() && (#[trigger] s[i]).requires_time_based_lock_time());
    let i = choose|i: int| 0 <= i < s.len() && (#[trigger] s[i]).has_lock_time();
    assert(s[i].min_height is Some);
    lemma_max_min_height(s);
}

/// Where no input sets a lock time, the fallback is the lock time.
pub proof fn lemma_lock_time_fallback(s: Seq<InputView>, fallback: LockTime)
    requires
        forall|i: int| 0 <= i < s.len() ==> !(#[trigger] s[i]).has_lock_time(),
    ensures
        resolve_lock_time(s, fallback) == Ok::<LockTime, crate::DetermineLockTimeError>(fallback),
{
}

/// Reading back the version 2 wire form of a well-formed document, whose heights and times
/// lie in their ranges, gives the document.
pub proof fn lemma_v2_round_trip(p: PsbtView)
    requires
        p.wf(),
        p.lock_times_valid(),
    ensures
        spec_from_psbt(p.to_v2()) == Ok::<PsbtView, crate::InvalidError>(p),
{
    let w = p.to_v2();
    assert forall|i: int| 0 <= i < w.inputs.len() implies input_v2_error()(#[trigger] w.inputs[i]) is None by {
        assert(p.inputs[i].lock_times_valid());
    }
    assert forall|i: int| 0 <= i < w.outputs.len() implies output_v2_error()(#[trigger] w.outputs[i]) is None by {}
    lemma_first_error_none(w.inputs, input_v2_error());
    lemma_first_error_none(w.outputs, output_v2_error());
    assert(v2_error(w) is None);
    assert(crate::adapter::spec_from_v2(w).inputs =~= p.inputs);
    assert(crate::adapter::spec_from_v2(w).outputs =~= p.outputs);
}

/// A version 0 wire document in the form the version 0 conversion produces from a strict
/// document with no version 2 content: none of the version 2 fields, and an unsigned transaction
/// with lock time zero and, on every input, an empty scriptSig and witness and the final
/// sequence.
pub open spec fn is_legacy_document(w: WirePsbtView) -> bool {
    &&& w.version == 0
    &&& v0_error(w) is None
    &&& w.tx_version is None
    &&& w.fallback_lock_time is None
    &&& w.input_count is None
    &&& w.output_count is None
    &&& w.tx_modifiable_flags is None
    &&& forall|i: int| 0 <= i < w.inputs.len() ==> (#[trigger] w.inputs[i]).previous_txid is None && w.inputs[i].spent_output_index is None
    &&& w.unsigned_tx.unwrap().lock_time == 0
    &&& forall|i: int| 0 <= i < w.unsigned_tx.unwrap().input.len() ==> (#[trigger] w.unsigned_tx.unwrap().input[i]).script_sig.len() == 0
        && w.unsigned_tx.unwrap().input[i].witness.len() == 0 && w.unsigned_tx.unwrap().input[i].sequence == SEQUENCE_FINAL
}

/// Reading a legacy document as a strict one and writing it back in version 0 gives the
/// legacy document.
pub proof fn lemma_v0_round_trip(w: WirePsbtView)
    requires
        is_legacy_document(w),
    ensures
        spec_from_psbt(w) matches Ok(p) && p.determine_lock_time() matches Ok(l) && p.to_v0(l) == w,
{
    let p = crate::adapter::spec_from_v0(w);
    let tx = w.unsigned_tx.unwrap();
    lemma_first_error_none(w.inputs, input_v0_error());
    lemma_first_error_none(w.outputs, output_v0_error());
    assert forall|i: int| 0 <= i < p.inputs.len() implies !(#[trigger] p.inputs[i]).has_lock_time() by {
        assert(input_v0_error()(w.inputs[i]) is None);
    }
    lemma_lock_time_fallback(p.inputs, p.fallback_lock_time);
    let l = p.fallback_lock_time;
    assert(l.spec_to_consensus() == tx.lock_time);
    assert(p.unsigned_tx(l).input =~= tx.input) by {
        assert forall|i: int| 0 <= i < tx.input.len() implies #[trigger] p.unsigned_tx(l).input[i] == tx.input[i] by {
            assert(tx.input[i].script_sig =~= Seq::<u8>::empty());
            assert(tx.input[i].witness =~= Seq::<Seq<u8>>::empty());
        }
    }
    assert(p.unsigned_tx(l).output =~= tx.output);
    assert(p.to_v0(l).inputs =~= w.inputs) by {
        assert forall|i: int| 0 <= i < w.inputs.len() implies #[trigger] p.to_v0(l).inputs[i] == w.inputs[i] by {
            assert(input_v0_error()(w.inputs[i]) is None);
        }
    }
    assert(p.to_v0(l).outputs =~= w.outputs) by {
        assert forall|i: int| 0 <= i < w.outputs.len() implies #[trigger] p.to_v0(l).outputs[i] == w.outputs[i] by {
            assert(output_v0_error()(w.outputs[i]) is None);
        }
    }
}

/// An input as it survives a trip through version 0: its sequence and lock-time requirements,
/// the fields that only version 2 carries, are gone.
pub open spec fn input_after_v0(i: InputView) -> InputView {
    InputView {
        sequence: None,
        min_time: None,
        min_height: None,
        ..i
    }
}

/// Writing a well-formed document in version 0 and reading it back loses exactly the version
/// 2 fields: the modifiable flags, the inputs' lock-time requirements, and the fallback lock
/// time, which reads back as zero; the inputs' sequences go too.
pub proof fn lemma_v2_to_v0_round_trip(p: PsbtView)
    requires
        p.wf(),
        p.determine_lock_time() is Ok,
    ensures
        spec_from_psbt(p.to_v0(p.determine_lock_time()->Ok_0)) == Ok::<PsbtView, crate::InvalidError>(
            PsbtView {
                fallback_lock_time: LockTime::Blocks(0),
                tx_modifiable_flags: 0,
                inputs: p.inputs.map_values(|i: InputView| input_after_v0(i)),
                ..p
            },
        ),
{
    let l = p.determine_lock_time()->Ok_0;
    let w = p.to_v0(l);
    assert forall|i: int| 0 <= i < w.inputs.len() implies input_v0_error()(#[trigger] w.inputs[i]) is None by {}
    assert forall|i: int| 0 <= i < w.outputs.len() implies output_v0_error()(#[trigger] w.outputs[i]) is None by {}
    lemma_first_error_none(w.inputs, input_v0_error());
    lemma_first_error_none(w.outputs, output_v0_error());
    assert(v0_error(w) is None);
    let q = crate::adapter::spec_from_v0(w);
    assert(q.inputs =~= p.inputs.map_values(|i: InputView| input_after_v0(i)));
    assert(q.outputs =~= p.outputs);
}

} // verus!

verus! {

/// A document with no version 2 content: counts equal to the lengths, no modifiable flags,
/// fallback lock time zero, and no input with a sequence or lock-time requirement. Writing it in
/// version 0 and reading it back gives it unchanged.
pub proof fn lemma_v0_form_keeps_plain_document(p: PsbtView)
    requires
        p.wf(),
        p.tx_modifiable_flags == 0,
        p.fallback_lock_time == LockTime::Blocks(0),
        forall|i: int|
            0 <= i < p.inputs.len() ==> (#[trigger] p.inputs[i]).min_time is None && p.inputs[i].min_height is None
                && p.inputs[i].sequence is None,
    ensures
        p.determine_lock_time() == Ok::<LockTime, crate::DetermineLockTimeError>(p.fallback_lock_time),
        spec_from_psbt(p.to_v0(p.fallback_lock_time)) == Ok::<PsbtView, crate::InvalidError>(p),
{
    assert forall|i: int| 0 <= i < p.inputs.len() implies !(#[trigger] p.inputs[i]).has_lock_time() by {}
    lemma_lock_time_fallback(p.inputs, p.fallback_lock_time);
    lemma_v2_to_v0_round_trip(p);
    assert(p.inputs.map_values(|i: InputView| input_after_v0(i)) =~= p.inputs);
}

/// Two inputs ask for the same lock time.
pub open spec fn same_requirements(a: InputView, b: InputView) -> bool {
    a.min_time == b.min_time && a.min_height == b.min_height
}

/// Some input of `t` asks for the lock time that `x` asks for.
pub open spec fn has_requirements_of(t: Seq<InputView>, x: InputView) -> bool {
    exists|j: int| 0 <= j < t.len() && same_requirements(t[j], x)
}

/// Every requirement of `s` is one of `t`.
pub open spec fn requirements_covered(s: Seq<InputView>, t: Seq<InputView>) -> bool {
    forall|i: int| 0 <= i < s.len() ==> has_requirements_of(t, #[trigger] s[i])
}

/// What resolution reads of `s` is found in `t` too when `t` covers the requirements of `s`.
proof fn lemma_requirements_transfer(s: Seq<InputView>, t: Seq<InputView>)
    requires
        requirements_covered(s, t),
    ensures
        (exists|i: int| 0 <= i < s.len() && (#[trigger] s[i]).requires_time_based_lock_time()) ==> (exists|
            j: int,
        | 0 <= j < t.len() && (#[trigger] t[j]).requires_time_based_lock_time()),
        (exists|i: int| 0 <= i < s.len() && (#[trigger] s[i]).requires_height_based_lock_time()) ==> (exists|
            j: int,
        | 0 <= j < t.len() && (#[trigger] t[j]).requires_height_based_lock_time()),
        (exists|i: int| 0 <= i < s.len() && (#[trigger] s[i]).has_lock_time()) ==> (exists|j: int|
            0 <= j < t.len() && (#[trigger] t[j]).has_lock_time()),
        (forall|j: int| 0 <= j < t.len() ==> (#[trigger] t[j]).is_satisfied_with_height_based_lock_time())
            ==> (forall|i: int| 0 <= i < s.len() ==> (#[trigger] s[i]).is_satisfied_with_height_based_lock_time()),
        max_min_height(s) matches Some(h) ==> (max_min_height(t) matches Some(g) && h <= g),
        crate::max_min_time(s) matches Some(h) ==> (crate::max_min_time(t) matches Some(g) && h <= g),
{
    if exists|i: int| 0 <= i < s.len() && (#[trigger] s[i]).requires_time_based_lock_time() {
        let i = choose|i: int| 0 <= i < s.len() && (#[trigger] s[i]).requires_time_based_lock_time();
        assert(has_requirements_of(t, s[i]));
        let j = choose|j: int| 0 <= j < t.len() && same_requirements(t[j], s[i]);
        assert(t[j].requires_time_based_lock_time());
    }
    if exists|i: int| 0 <= i < s.len() && (#[trigger] s[i]).requires_height_based_lock_time() {
        let i = choose|i: int| 0 <= i < s.len() && (#[trigger] s[i]).requires_height_based_lock_time();
        assert(has_requirements_of(t, s[i]));
        let j = choose|j: int| 0 <= j < t.len() && same_requirements(t[j], s[i]);
        assert(t[j].requires_height_based_lock_time());
    }
    if exists|i: int| 0 <= i < s.len() && (#[trigger] s[i]).has_lock_time() {
        let i = choose|i: int| 0 <= i < s.len() && (#[trigger] s[i]).has_lock_time();
        assert(has_requirements_of(t, s[i]));
        let j = choose|j: int| 0 <= j < t.len() && same_requirements(t[j], s[i]);
        assert(t[j].has_lock_time());
    }
    if forall|j: int| 0 <= j < t.len() ==> (#[trigger] t[j]).is_satisfied_with_height_based_lock_time() {
        assert forall|i: int| 0 <= i < s.len() implies (#[trigger] s[i]).is_satisfied_with_height_based_lock_time() by {
            assert(has_requirements_of(t, s[i]));
            let j = choose|j: int| 0 <= j < t.len() && same_requirements(t[j], s[i]);
            assert(t[j].is_satisfied_with_height_based_lock_time());
        }
    }
    lemma_max_min_height(s);
    lemma_max_min_height(t);
    crate::lemma_max_min_time(s);
    crate::lemma_max_min_time(t);
    if let Some(h) = max_min_height(s) {
        let i = choose|i: int| 0 <= i < s.len() && (#[trigger] s[i]).min_height == Some(h);
        assert(has_requirements_of(t, s[i]));
        let j = choose|j: int| 0 <= j < t.len() && same_requirements(t[j], s[i]);
        assert(t[j].min_height == Some(h));
    }
    if let Some(h) = crate::max_min_time(s) {
        let i = choose|i: int| 0 <= i < s.len() && (#[trigger] s[i]).min_time == Some(h);
        assert(has_requirements_of(t, s[i]));
        let j = choose|j: int| 0 <= j < t.len() && same_requirements(t[j], s[i]);
        assert(t[j].min_time == Some(h));
    }
}

/// The lock time depends only on which requirements the inputs make: reordering the inputs,
/// repeating or dropping inputs with the requirements of others, or changing any other field
/// leaves it unchanged.
pub proof fn lemma_lock_time_order_independent(s: Seq<InputView>, t: Seq<InputView>, fallback: LockTime)
    requires
        requirements_covered(s, t),
        requirements_covered(t, s),
    ensures
        resolve_lock_time(s, fallback) == resolve_lock_time(t, fallback),
{
    lemma_requirements_transfer(s, t);
    lemma_requirements_transfer(t, s);
}

/// Documents that spend and pay alike and differ only in an extended key whose source in `a`
/// has a shorter path ending the path of its source in `b`: they combine in either order, and
/// the combination keeps `b`'s longer, more specific source.
pub proof fn lemma_xpub_tie_break_combines(a: PsbtView, b: PsbtView, k: Seq<u8>)
    requires
        a.tx_version == b.tx_version,
        a.inputs_match(b),
        a.outputs_match(b),
        a.xpub.contains_key(k),
        b.xpub.contains_key(k),
        a.xpub[k].path.len() < b.xpub[k].path.len(),
        is_suffix(a.xpub[k].path, b.xpub[k].path),
        forall|x: Seq<u8>|
            #[trigger] a.xpub.contains_key(x) && b.xpub.contains_key(x) && x != k ==> a.xpub[x] == b.xpub[x],
    ensures
        a.can_combine(b),
        b.can_combine(a),
        a.combine(b).xpub[k] == b.xpub[k],
        b.combine(a).xpub[k] == b.xpub[k],
{
    assert forall|i: int| 0 <= i < b.inputs.len() implies (#[trigger] b.inputs[i]).same_outpoint(a.inputs[i]) by {
        assert(a.inputs[i].same_outpoint(b.inputs[i]));
    }
    assert forall|i: int| 0 <= i < b.outputs.len() implies (#[trigger] b.outputs[i]).same_payment(a.outputs[i]) by {
        assert(a.outputs[i].same_payment(b.outputs[i]));
    }
}

/// Documents that spend and pay alike but hold one extended key with paths of equal length
/// that differ cannot be combined, in either order, and the combiner's error names an extended
/// key whose sources conflict.
pub proof fn lemma_xpub_conflict_error(a: PsbtView, b: PsbtView, k: Seq<u8>, e: CombineError)
    requires
        a.tx_version == b.tx_version,
        a.inputs_match(b),
        a.outputs_match(b),
        a.xpub.contains_key(k),
        b.xpub.contains_key(k),
        a.xpub[k].path.len() == b.xpub[k].path.len(),
        a.xpub[k].path != b.xpub[k].path,
        a.combine_error_is(b, e),
    ensures
        !a.can_combine(b),
        e matches CombineError::InconsistentKeySources(x) && !key_sources_consistent(a.xpub[x@], b.xpub[x@]),
{
    match e {
        CombineError::Input(i, ie) => {
            assert(a.inputs[i as int].same_outpoint(b.inputs[i as int]));
        },
        CombineError::Output(i, oe) => {
            assert(a.outputs[i as int].same_payment(b.outputs[i as int]));
        },
        _ => {},
    }
}

} // verus!
