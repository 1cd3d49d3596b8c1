use std::collections::{BTreeMap, BTreeSet, HashMap, HashSet, VecDeque};

use observe::Observe;

#[test]
fn vec_appends_in_order() {
    let mut v: Vec<i32> = Vec::new();
    v.update(1);
    v.update(2);
    v.update(3);
    assert_eq!(v, vec![1, 2, 3]);
}

#[test]
fn deque_appends_at_tail() {
    let mut d: VecDeque<i32> = VecDeque::new();
    d.push_back(0);
    d.update(1);
    d.update(2);
    let contents: Vec<i32> = d.iter().copied().collect();
    assert_eq!(contents, vec![0, 1, 2]);
}

#[test]
fn hash_map_last_write_wins() {
    let mut m: HashMap<&str, i32> = HashMap::new();
    m.update(("a", 1));
    m.update(("b", 2));
    m.update(("a", 3));
    assert_eq!(m.get("a"), Some(&3));
    assert_eq!(m.get("b"), Some(&2));
    assert_eq!(m.len(), 2);
}

#[test]
fn hash_map_disjoint_keys_both_present() {
    let mut m: HashMap<u64, u64> = HashMap::new();
    m.update((1, 10));
    m.update((2, 20));
    assert_eq!(m.get(&1), Some(&10));
    assert_eq!(m.get(&2), Some(&20));
    assert_eq!(m.len(), 2);
}

#[test]
fn hash_set_absorbs_duplicates() {
    let mut s: HashSet<i32> = HashSet::new();
    s.update(7);
    let after_once = s.clone();
    s.update(7);
    assert_eq!(s, after_once);
    assert_eq!(s.len(), 1);
    assert!(s.contains(&7));
}

#[test]
fn btree_map_last_write_wins() {
    let mut m: BTreeMap<String, i32> = BTreeMap::new();
    m.update(("k".to_string(), 1));
    m.update(("k".to_string(), 2));
    assert_eq!(m.get("k"), Some(&2));
    assert_eq!(m.len(), 1);
}

#[test]
fn btree_map_disjoint_keys_both_present() {
    let mut m: BTreeMap<i32, i32> = BTreeMap::new();
    m.update((5, 50));
    m.update((6, 60));
    assert_eq!(m.get(&5), Some(&50));
    assert_eq!(m.get(&6), Some(&60));
    assert_eq!(m.len(), 2);
}

#[test]
fn btree_set_in_order_traversal() {
    let mut s: BTreeSet<i32> = BTreeSet::new();
    s.update(3);
    s.update(1);
    s.update(2);
    s.update(1);
    let contents: Vec<i32> = s.iter().copied().collect();
    assert_eq!(contents, vec![1, 2, 3]);
    assert_eq!(s.len(), 3);
}

#[test]
fn string_single_code_points() {
    let mut s = String::new();
    s.update('h');
    s.update('i');
    assert_eq!(s, "hi");
}

#[test]
fn string_slice_then_code_point() {
    let mut s = "foo".to_string();
    s.update("bar");
    s.update('!');
    assert_eq!(s, "foobar!");
}

#[test]
fn string_multibyte_code_point() {
    let mut s = String::new();
    s.update('\u{e9}');
    assert_eq!(s, "\u{e9}");
    assert_eq!(s.len(), 2);
    assert_eq!(s.chars().count(), 1);
}

#[test]
fn string_code_points_match_slice_append() {
    let slice = "bar";
    let mut by_chars = "foo".to_string();
    for c in slice.chars() {
        by_chars.update(c);
    }
    let mut by_slice = "foo".to_string();
    by_slice.update(slice);
    assert_eq!(by_chars, by_slice);
}

#[test]
fn sizes_never_shrink() {
    let mut v: Vec<u8> = vec![9];
    let before = v.len();
    v.update(4);
    assert!(v.len() >= before);

    let mut s: HashSet<u8> = HashSet::new();
    s.update(1);
    let before = s.len();
    s.update(1);
    assert!(s.len() >= before);

    let mut m: BTreeMap<u8, u8> = BTreeMap::new();
    m.update((1, 1));
    let before = m.len();
    m.update((1, 2));
    assert!(m.len() >= before);
}
