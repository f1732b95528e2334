use std::collections::{HashMap, HashSet};

use empty_collections::{EMap, ESet, EVec};

#[test]
fn vector_eq() {
    let a: EVec<usize> = EVec::new();
    let b = EVec::new();
    assert_eq!(a, b);
}

#[test]
fn vector_ord() {
    let a: EVec<usize> = EVec::new();
    let b = EVec::new();
    assert!(!(a < b));
    assert!(!(a > b));
}

#[test]
fn map_eq() {
    let a: EMap<usize, usize> = EMap::new();
    let b = EMap::new();
    assert_eq!(a, b);
}

#[test]
fn map_ord() {
    let a: EMap<usize, usize> = EMap::new();
    let b = EMap::new();
    assert!(!(a < b));
    assert!(!(a > b));
}

#[test]
fn set_eq() {
    let a: ESet<usize> = ESet::new();
    let b = ESet::new();
    assert_eq!(a, b);
}

#[test]
fn set_ord() {
    let a: ESet<usize> = ESet::new();
    let b = ESet::new();
    assert!(!(a < b));
    assert!(!(a > b));
}

#[test]
fn vector_new_is_empty() {
    let v: EVec<String> = EVec::new();
    assert!(v.is_empty());
    assert_eq!(v.len(), 0);
}

#[test]
fn vector_contains_nothing() {
    let v: EVec<i32> = EVec::new();
    assert!(!v.contains(&0));
    assert!(!v.contains(&17));
    let w: EVec<String> = EVec::new();
    assert!(!w.contains(&String::from("anything")));
}

#[test]
fn vector_to_vec_is_empty() {
    let v: EVec<i32> = EVec::new();
    let out: Vec<i32> = v.to_vec();
    assert_eq!(out.len(), 0);
}

#[test]
fn vector_from_vec_rejects_populated() {
    assert!(EVec::<i32>::from_vec(Vec::new()).is_some());
    assert!(EVec::from_vec(vec![1]).is_none());
    assert!(EVec::from_vec(vec![1, 2, 3]).is_none());
}

#[test]
fn vector_try_from_vec_messages() {
    assert!(EVec::<i32>::try_from_vec(Vec::new()).is_ok());
    let e = EVec::try_from_vec(vec![5]).unwrap_err();
    assert_eq!(e, "Cannot convert a non-empty vector into an empty one");
}

#[test]
fn vector_iteration_sums_to_zero() {
    let v: EVec<i64> = EVec::new();
    let mut it = v.iter();
    let mut count: usize = 0;
    let mut sum: i64 = 0;
    while let Some(x) = it.next() {
        count += 1;
        sum += *x;
    }
    assert_eq!(count, 0);
    assert_eq!(sum, 0);
    // Iteration is restartable: a fresh iterator is just as exhausted.
    let mut again = v.iter();
    assert!(again.next().is_none());
}

#[test]
fn vector_debug_render_matches_empty_literal() {
    let v: EVec<u8> = EVec::new();
    let empty: [u8; 0] = [];
    assert_eq!(v.debug_render(), format!("{:?}", empty));
}

#[test]
fn map_new_is_empty() {
    let m: EMap<String, i32> = EMap::new();
    assert!(m.is_empty());
    assert_eq!(m.len(), 0);
    assert!(!m.contains_key(&String::from("key")));
}

#[test]
fn map_iteration_yields_nothing() {
    let m: EMap<String, i32> = EMap::new();
    assert!(m.keys().next().is_none());
    assert!(m.values().next().is_none());
    assert!(m.iter().next().is_none());
    let n: EMap<String, i32> = EMap::new();
    assert!(n.into_keys().next().is_none());
    let p: EMap<String, i32> = EMap::new();
    assert!(p.into_values().next().is_none());
    let q: EMap<String, i32> = EMap::new();
    assert!(q.into_iter().next().is_none());
}

#[test]
fn map_from_map_rejects_populated() {
    assert!(EMap::<i32, i32>::from_map(HashMap::new()).is_some());
    let mut populated: HashMap<i32, i32> = HashMap::new();
    populated.insert(1, 10);
    assert!(EMap::from_map(populated).is_none());
}

#[test]
fn map_try_from_map_messages() {
    assert!(EMap::<i32, i32>::try_from_map(HashMap::new()).is_ok());
    let mut populated: HashMap<i32, i32> = HashMap::new();
    populated.insert(1, 10);
    let e = EMap::try_from_map(populated).unwrap_err();
    assert_eq!(e, "Cannot convert a non-empty HashMap into an empty one");
}

#[test]
fn map_to_map_is_empty() {
    let m: EMap<String, i32> = EMap::new();
    let out: HashMap<String, i32> = m.to_map();
    assert!(out.is_empty());
}

#[test]
fn map_default_is_empty() {
    let m: EMap<u8, u8> = Default::default();
    assert!(m.is_empty());
}

#[test]
fn map_debug_render_matches_empty_literal() {
    let m: EMap<String, i32> = EMap::new();
    let empty: HashMap<String, i32> = HashMap::new();
    assert_eq!(m.debug_render(), format!("{:?}", empty));
}

#[test]
fn set_new_is_empty() {
    let s: ESet<i32> = ESet::new();
    assert!(s.is_empty());
    assert_eq!(s.len(), 0);
    assert!(!s.contains(&3));
}

#[test]
fn set_algebra_stays_empty() {
    let a: ESet<i32> = ESet::new();
    let b: ESet<i32> = ESet::new();
    assert!(a.union(&b).next().is_none());
    assert!(a.intersection(&b).next().is_none());
    assert!(a.difference(&b).next().is_none());
    assert!(a.iter().next().is_none());
    let mut consumed = b.into_iter();
    assert!(consumed.next().is_none());
}

#[test]
fn set_from_set_scenario() {
    let populated: HashSet<i32> = [1, 2, 3].into_iter().collect();
    assert!(ESet::from_set(populated).is_none());
    let empty: HashSet<i32> = HashSet::new();
    let s = ESet::from_set(empty).unwrap();
    assert_eq!(s.len(), 0);
}

#[test]
fn set_try_from_set_messages() {
    assert!(ESet::<i32>::try_from_set(HashSet::new()).is_ok());
    let mut populated: HashSet<i32> = HashSet::new();
    populated.insert(7);
    let e = ESet::try_from_set(populated).unwrap_err();
    assert_eq!(e, "Cannot convert a non-empty HashSet into an empty one");
}

#[test]
fn set_to_set_is_empty() {
    let s: ESet<i32> = ESet::new();
    let out: HashSet<i32> = s.to_set();
    assert!(out.is_empty());
}

#[test]
fn clones_compare_equal() {
    let v: EVec<i32> = EVec::new();
    assert_eq!(v.clone(), v);
    let m: EMap<i32, i32> = EMap::new();
    assert_eq!(m.clone(), m);
    let s: ESet<i32> = ESet::new();
    assert_eq!(s.clone(), s);
}
