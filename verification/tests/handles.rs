use grr_util::handle::HandleTable;

#[test]
fn insert_and_get() {
    let mut t: HandleTable<u64> = HandleTable::new();
    let a = t.insert(10);
    let b = t.insert(20);
    assert_eq!(t.get(a), Some(&10));
    assert_eq!(t.get(b), Some(&20));
}

#[test]
fn removed_handle_never_resolves_again() {
    let mut t: HandleTable<u64> = HandleTable::new();
    let a = t.insert(1);
    let b = t.insert(2);
    assert_eq!(t.remove(a), Some(1));
    assert_eq!(t.get(a), None);
    // the freed slot is reused by later inserts, but the old handle stays
    // stale forever
    let mut later = Vec::new();
    for k in 0..10u64 {
        later.push(t.insert(100 + k));
    }
    assert_eq!(t.get(a), None);
    assert_eq!(t.remove(a), None);
    assert_eq!(t.get(b), Some(&2));
    for (k, h) in later.iter().enumerate() {
        assert_eq!(t.get(*h), Some(&(100 + k as u64)));
    }
}

#[test]
fn set_replaces_only_live_entries() {
    let mut t: HandleTable<u64> = HandleTable::new();
    let a = t.insert(5);
    assert!(t.set(a, 6));
    assert_eq!(t.get(a), Some(&6));
    t.remove(a);
    assert!(!t.set(a, 7));
    assert_eq!(t.get(a), None);
}

#[test]
fn get_mut_updates_in_place() {
    let mut t: HandleTable<u64> = HandleTable::new();
    let a = t.insert(5);
    if let Some(v) = t.get_mut(a) {
        *v = 9;
    }
    assert_eq!(t.get(a), Some(&9));
    let b = grr_util::handle::RawHandle { index: 99, generation: 1 };
    assert!(t.get_mut(b).is_none());
}

#[test]
fn drain_empties_and_kills_handles() {
    let mut t: HandleTable<u64> = HandleTable::new();
    let a = t.insert(1);
    let b = t.insert(2);
    let mut drained = t.drain();
    drained.sort_by_key(|p| p.1);
    assert_eq!(drained.len(), 2);
    assert_eq!(drained[0], (a, 1));
    assert_eq!(drained[1], (b, 2));
    assert_eq!(t.get(a), None);
    assert_eq!(t.get(b), None);
    let c = t.insert(3);
    assert_eq!(t.get(a), None);
    assert_eq!(t.get(c), Some(&3));
}

#[test]
fn handles_lists_live_entries() {
    let mut t: HandleTable<u64> = HandleTable::new();
    let a = t.insert(1);
    let b = t.insert(2);
    let c = t.insert(3);
    t.remove(b);
    let hs = t.handles();
    assert_eq!(hs.len(), 2);
    assert!(hs.contains(&a));
    assert!(hs.contains(&c));
    assert!(!hs.contains(&b));
}
