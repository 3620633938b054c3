use psbt_v2::combine::CombineError;
use psbt_v2::input::CombineError as InputCombineError;
use psbt_v2::output::CombineError as OutputCombineError;
use psbt_v2::types::{EcdsaSignature, KeySource};
use psbt_v2::{combine, Creator, Input, Output, Psbt};

fn sig(b: u8) -> EcdsaSignature {
    EcdsaSignature { signature: vec![0x30, b], sighash_type: 1 }
}

fn base(tag: u8) -> Psbt {
    let mut i = Input::new([7; 32], 1);
    i.partial_sigs.insert(vec![2, tag], sig(tag));
    if tag == 1 {
        i.redeem_script = Some(vec![0xa9]);
    } else {
        i.witness_script = Some(vec![0x51]);
    }
    let o = Output::new(1000, vec![0x00, 0x14]);
    let mut p = Creator::new().constructor_modifiable().input(i).output(o).into_inner().ok().unwrap();
    p.proprietary.insert(vec![0xfc, tag], vec![tag]);
    p
}

fn keys(p: &Psbt) -> Vec<Vec<u8>> {
    p.inputs[0].partial_sigs.entries().iter().map(|e| e.0.clone()).collect()
}

#[test]
fn combine_is_commutative() {
    let ab = combine(base(1), base(2)).unwrap();
    let ba = combine(base(2), base(1)).unwrap();
    for p in [&ab, &ba] {
        assert_eq!(p.inputs.len(), 1);
        assert_eq!(p.input_count, 1);
        assert_eq!(p.output_count, 1);
        assert_eq!(p.inputs[0].partial_sigs.len(), 2);
        assert_eq!(p.inputs[0].redeem_script, Some(vec![0xa9]));
        assert_eq!(p.inputs[0].witness_script, Some(vec![0x51]));
        assert_eq!(p.proprietary.len(), 2);
        assert!(p.inputs[0].partial_sigs.get(&[2, 1]).is_some());
        assert!(p.inputs[0].partial_sigs.get(&[2, 2]).is_some());
    }
    assert_eq!(keys(&ab), vec![vec![2, 1], vec![2, 2]]);
    assert_eq!(keys(&ab), keys(&ba));
    assert_eq!(ab.proprietary.entries(), ba.proprietary.entries());
}

#[test]
fn combine_with_self_is_identity() {
    let p = combine(base(1), base(1)).unwrap();
    assert_eq!(p.inputs.len(), 1);
    assert_eq!(p.inputs[0].partial_sigs.len(), 1);
    assert_eq!(p.inputs[0].partial_sigs.get(&[2, 1]), Some(&sig(1)));
    assert_eq!(p.inputs[0].redeem_script, Some(vec![0xa9]));
    assert_eq!(p.inputs[0].witness_script, None);
    assert_eq!(p.proprietary.len(), 1);
    assert_eq!(p.tx_modifiable_flags, base(1).tx_modifiable_flags);
}

#[test]
fn combine_keeps_first_value_on_shared_key() {
    let mut a = base(1);
    let mut b = base(1);
    a.inputs[0].partial_sigs.insert(vec![9], sig(10));
    b.inputs[0].partial_sigs.insert(vec![9], sig(20));
    let p = combine(a, b).unwrap();
    assert_eq!(p.inputs[0].partial_sigs.get(&[9]), Some(&sig(10)));
}

#[test]
fn combine_recomputes_counts() {
    let mut a = base(1);
    let mut b = base(2);
    a.input_count = 5;
    b.input_count = 5;
    let p = combine(a, b).unwrap();
    assert_eq!(p.input_count, 1);
}

#[test]
fn combine_rejects_tx_version_mismatch() {
    let mut b = base(2);
    b.tx_version = 1;
    assert_eq!(combine(base(1), b).err(), Some(CombineError::TxVersionMismatch { this: 2, that: 1 }));
}

#[test]
fn combine_rejects_input_count_mismatch() {
    let mut b = base(2);
    b.inputs.push(Input::new([8; 32], 0));
    assert_eq!(combine(base(1), b).err(), Some(CombineError::InputCountMismatch { this: 1, that: 2 }));
}

#[test]
fn combine_rejects_other_previous_txid() {
    let mut b = base(2);
    b.inputs[0].previous_txid = [8; 32];
    assert_eq!(
        combine(base(1), b).err(),
        Some(CombineError::Input(0, InputCombineError::PreviousTxidMismatch { this: [7; 32], that: [8; 32] }))
    );
}

#[test]
fn combine_rejects_other_spent_output_index() {
    let mut b = base(2);
    b.inputs[0].spent_output_index = 4;
    assert_eq!(
        combine(base(1), b).err(),
        Some(CombineError::Input(0, InputCombineError::SpentOutputIndexMismatch { this: 1, that: 4 }))
    );
}

#[test]
fn combine_rejects_output_mismatches() {
    let mut b = base(2);
    b.outputs[0].amount = 999;
    assert_eq!(
        combine(base(1), b).err(),
        Some(CombineError::Output(0, OutputCombineError::AmountMismatch { this: 1000, that: 999 }))
    );
    let mut c = base(2);
    c.outputs[0].script_pubkey = vec![0x51];
    assert_eq!(
        combine(base(1), c).err(),
        Some(CombineError::Output(
            0,
            OutputCombineError::ScriptPubkeyMismatch { this: vec![0x00, 0x14], that: vec![0x51] }
        ))
    );
}

fn with_xpub(fingerprint: [u8; 4], path: Vec<u32>) -> Psbt {
    let mut p = base(1);
    p.xpub.insert(vec![0x04, 0x88], KeySource { fingerprint, path });
    p
}

#[test]
fn xpub_merge_keeps_longer_path_that_the_shorter_ends() {
    let f = [1, 2, 3, 4];
    let ab = combine(with_xpub(f, vec![2]), with_xpub(f, vec![1, 2])).unwrap();
    assert_eq!(ab.xpub.get(&[0x04, 0x88]).unwrap().path, vec![1, 2]);
    let ba = combine(with_xpub(f, vec![1, 2]), with_xpub(f, vec![2])).unwrap();
    assert_eq!(ba.xpub.get(&[0x04, 0x88]).unwrap().path, vec![1, 2]);
}

#[test]
fn xpub_merge_keeps_identical_source() {
    let f = [1, 2, 3, 4];
    let p = combine(with_xpub(f, vec![5, 6]), with_xpub(f, vec![5, 6])).unwrap();
    assert_eq!(p.xpub.len(), 1);
    assert_eq!(p.xpub.get(&[0x04, 0x88]).unwrap().path, vec![5, 6]);
}

#[test]
fn xpub_merge_rejects_equal_length_unequal_paths() {
    let r = combine(with_xpub([1, 1, 1, 1], vec![7]), with_xpub([2, 2, 2, 2], vec![8]));
    assert_eq!(r.err(), Some(CombineError::InconsistentKeySources(vec![0x04, 0x88])));
}

#[test]
fn xpub_merge_rejects_prefix_that_is_not_a_suffix() {
    let f = [1, 2, 3, 4];
    let r = combine(with_xpub(f, vec![1]), with_xpub(f, vec![1, 2]));
    assert_eq!(r.err(), Some(CombineError::InconsistentKeySources(vec![0x04, 0x88])));
}

#[test]
fn xpub_merge_rejects_same_path_other_fingerprint() {
    let r = combine(with_xpub([1, 1, 1, 1], vec![3]), with_xpub([2, 2, 2, 2], vec![3]));
    assert!(matches!(r.err(), Some(CombineError::InconsistentKeySources(_))));
}

#[test]
fn in_place_combine_leaves_document_on_error() {
    let mut a = base(1);
    let mut b = base(2);
    b.tx_version = 3;
    assert!(a.combine(b).is_err());
    assert_eq!(a.tx_version, 2);
    assert_eq!(a.inputs[0].partial_sigs.len(), 1);
    let mut c = base(1);
    assert_eq!(c.combine(base(2)), Ok(()));
    assert_eq!(c.inputs[0].partial_sigs.len(), 2);
}

#[test]
fn input_combine_fills_missing_fields() {
    let mut a = Input::new([1; 32], 0);
    let mut b = Input::new([1; 32], 0);
    b.min_height = Some(10);
    b.sighash_type = Some(1);
    a.sequence = Some(4);
    b.sequence = Some(9);
    assert_eq!(a.combine(b), Ok(()));
    assert_eq!(a.min_height, Some(10));
    assert_eq!(a.sighash_type, Some(1));
    assert_eq!(a.sequence, Some(4));
}

#[test]
fn combine_rejects_output_count_mismatch() {
    let mut b = base(2);
    b.outputs.push(Output::new(1, vec![0x51]));
    assert_eq!(combine(base(1), b).err(), Some(CombineError::OutputCountMismatch { this: 1, that: 2 }));
}
