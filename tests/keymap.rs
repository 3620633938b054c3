use psbt_v2::KeyMap;

#[test]
fn insert_replaces_value() {
    let mut m: KeyMap<Vec<u8>> = KeyMap::new();
    assert!(m.is_empty());
    m.insert(vec![1], vec![10]);
    m.insert(vec![2], vec![20]);
    m.insert(vec![1], vec![11]);
    assert_eq!(m.len(), 2);
    assert_eq!(m.get(&[1]), Some(&vec![11]));
    assert!(m.contains_key(&[2]));
    assert!(!m.contains_key(&[3]));
}

#[test]
fn extend_missing_keeps_existing_entries() {
    let mut a: KeyMap<Vec<u8>> = KeyMap::new();
    a.insert(vec![1], vec![10]);
    let mut b: KeyMap<Vec<u8>> = KeyMap::new();
    b.insert(vec![1], vec![99]);
    b.insert(vec![2], vec![20]);
    a.extend_missing(b);
    assert_eq!(a.len(), 2);
    assert_eq!(a.get(&[1]), Some(&vec![10]));
    assert_eq!(a.get(&[2]), Some(&vec![20]));
    let copy = a.duplicate();
    assert_eq!(copy.entries(), a.entries());
}

#[test]
fn entries_are_sorted_by_key() {
    let mut m: KeyMap<Vec<u8>> = KeyMap::new();
    m.insert(vec![3], vec![]);
    m.insert(vec![1, 5], vec![]);
    m.insert(vec![1], vec![]);
    m.insert(vec![2, 0], vec![]);
    let keys: Vec<Vec<u8>> = m.entries().iter().map(|e| e.0.clone()).collect();
    assert_eq!(keys, vec![vec![1], vec![1, 5], vec![2, 0], vec![3]]);
}
