use psbt_v2::types::LockTime;
use psbt_v2::{Creator, DetermineLockTimeError, Input, Psbt};

fn doc_with(inputs: Vec<Input>, fallback: LockTime) -> Psbt {
    let mut c = Creator::new().fallback_lock_time(fallback).constructor_modifiable();
    for i in inputs {
        c = c.input(i);
    }
    c.into_inner().ok().unwrap()
}

fn input(n: u8, min_time: Option<u32>, min_height: Option<u32>) -> Input {
    let mut i = Input::new([n; 32], 0);
    i.min_time = min_time;
    i.min_height = min_height;
    i
}

fn unchecked_doc(inputs: Vec<Input>, fallback: LockTime) -> Psbt {
    let mut p = Creator::new().fallback_lock_time(fallback).into_inner();
    p.input_count = inputs.len();
    p.inputs = inputs;
    p
}

#[test]
fn no_lock_time_fields_resolve_to_fallback() {
    let p = doc_with(vec![input(1, None, None), input(2, None, None)], LockTime::Blocks(500000));
    assert_eq!(p.determine_lock_time(), Ok(LockTime::Blocks(500000)));
}

#[test]
fn fallback_defaults_to_zero() {
    let p = doc_with(vec![input(1, None, None)], LockTime::Blocks(0));
    assert_eq!(p.determine_lock_time(), Ok(LockTime::Blocks(0)));
}

#[test]
fn heights_resolve_to_the_maximum_height() {
    let p = doc_with(
        vec![input(1, None, Some(600000)), input(2, None, Some(650000)), input(3, None, None)],
        LockTime::Blocks(500000),
    );
    assert_eq!(p.determine_lock_time(), Ok(LockTime::Blocks(650000)));
}

#[test]
fn time_and_height_requirements_conflict() {
    let p = unchecked_doc(vec![input(1, Some(600_000_000), None), input(2, None, Some(700000))], LockTime::Blocks(0));
    assert_eq!(p.determine_lock_time(), Err(DetermineLockTimeError));
}

#[test]
fn both_fields_on_one_input_prefer_height() {
    let p = doc_with(vec![input(1, Some(600_000_000), Some(100)), input(2, None, Some(200))], LockTime::Blocks(7));
    assert_eq!(p.determine_lock_time(), Ok(LockTime::Blocks(200)));
}

#[test]
fn time_only_input_selects_time_maximum() {
    let p = doc_with(
        vec![input(1, Some(600_000_000), None), input(2, Some(600_000_100), Some(10))],
        LockTime::Blocks(7),
    );
    assert_eq!(p.determine_lock_time(), Ok(LockTime::Seconds(600_000_100)));
}

#[test]
fn unsigned_tx_uses_resolved_lock_time_and_default_sequence() {
    let mut second = input(2, None, Some(650000));
    second.sequence = Some(5);
    let p = doc_with(vec![input(1, None, Some(600000)), second], LockTime::Blocks(500000));
    let tx = p.unsigned_tx().unwrap();
    assert_eq!(tx.lock_time, 650000);
    assert_eq!(tx.version, 2);
    assert_eq!(tx.input.len(), 2);
    assert_eq!(tx.input[0].sequence, 0xffff_ffff);
    assert_eq!(tx.input[1].sequence, 5);
    assert_eq!(tx.input[1].previous_output.txid, [2u8; 32]);
    assert!(tx.input[0].script_sig.is_empty());
}

#[test]
fn unsigned_tx_fails_on_conflict() {
    let p = unchecked_doc(vec![input(1, Some(600_000_000), None), input(2, None, Some(700000))], LockTime::Blocks(0));
    assert!(matches!(p.unsigned_tx(), Err(DetermineLockTimeError)));
}

#[test]
fn lock_time_consensus_encoding() {
    assert_eq!(LockTime::from_consensus(499_999_999), LockTime::Blocks(499_999_999));
    assert_eq!(LockTime::from_consensus(500_000_000), LockTime::Seconds(500_000_000));
    assert_eq!(LockTime::Seconds(600_000_000).to_consensus_u32(), 600_000_000);
}

#[test]
fn input_lock_time_prefers_height() {
    assert_eq!(input(1, Some(600_000_000), Some(5)).lock_time(), LockTime::Blocks(5));
    assert_eq!(input(1, Some(600_000_000), None).lock_time(), LockTime::Seconds(600_000_000));
    assert_eq!(input(1, None, None).lock_time(), LockTime::Blocks(0));
}

#[test]
fn id_ignores_sequences_and_depends_on_inputs() {
    let a = doc_with(vec![input(1, None, None)], LockTime::Blocks(0));
    let mut b_input = input(1, None, None);
    b_input.sequence = Some(3);
    let b = doc_with(vec![b_input], LockTime::Blocks(0));
    let c = doc_with(vec![input(9, None, None)], LockTime::Blocks(0));
    let id_a = a.id().unwrap();
    assert_eq!(id_a, b.id().unwrap());
    assert_ne!(id_a, c.id().unwrap());
    assert_ne!(id_a, [0u8; 32]);
    assert_ne!(id_a, [1u8; 32]);
}

#[test]
fn lock_time_does_not_depend_on_input_order() {
    let a = doc_with(
        vec![input(1, None, Some(650000)), input(2, Some(600_000_000), Some(3)), input(3, None, Some(600000))],
        LockTime::Blocks(500000),
    );
    let b = doc_with(
        vec![input(9, None, Some(600000)), input(8, None, Some(650000)), input(7, Some(600_000_000), Some(3))],
        LockTime::Blocks(500000),
    );
    assert_eq!(a.determine_lock_time(), Ok(LockTime::Blocks(650000)));
    assert_eq!(a.determine_lock_time(), b.determine_lock_time());
}

#[test]
fn lock_time_validity() {
    assert!(LockTime::Blocks(499_999_999).is_valid());
    assert!(!LockTime::Blocks(500_000_000).is_valid());
    assert!(LockTime::Seconds(500_000_000).is_valid());
    assert!(!LockTime::Seconds(1).is_valid());
}
