use dgraph::ReadVector;
use dgraph::merge_lin_reads;

fn vector_of(pairs: &[(u64, u64)]) -> ReadVector {
    let mut rv = ReadVector::new();
    for (g, t) in pairs {
        rv.insert(*g, *t);
    }
    rv
}

#[test]
fn merge_takes_per_key_maximum() {
    let mut dst = vector_of(&[(1, 5), (2, 9)]);
    let src = vector_of(&[(1, 7), (3, 2)]);
    merge_lin_reads(&mut dst, &src);
    assert_eq!(dst.get(1), Some(7));
    assert_eq!(dst.get(2), Some(9));
    assert_eq!(dst.get(3), Some(2));
    assert_eq!(dst.len(), 3);
}

#[test]
fn merge_of_empty_source_changes_nothing() {
    let mut dst = vector_of(&[(1, 5), (7, 11)]);
    let src = ReadVector::new();
    merge_lin_reads(&mut dst, &src);
    assert_eq!(dst.get(1), Some(5));
    assert_eq!(dst.get(7), Some(11));
    assert_eq!(dst.len(), 2);
}

#[test]
fn merge_is_idempotent() {
    let mut once = vector_of(&[(1, 5), (2, 9)]);
    let src = vector_of(&[(1, 7), (3, 2), (2, 1)]);
    merge_lin_reads(&mut once, &src);
    let mut twice = vector_of(&[(1, 5), (2, 9)]);
    merge_lin_reads(&mut twice, &src);
    merge_lin_reads(&mut twice, &src);
    for g in [1u64, 2, 3] {
        assert_eq!(once.get(g), twice.get(g));
    }
    assert_eq!(once.len(), twice.len());
}

#[test]
fn merge_never_lowers_a_timestamp() {
    let mut dst = vector_of(&[(4, 100)]);
    let src = vector_of(&[(4, 99)]);
    merge_lin_reads(&mut dst, &src);
    assert_eq!(dst.get(4), Some(100));
}

#[test]
fn disjoint_merges_commute_and_lose_nothing() {
    let a = vector_of(&[(1, 10), (3, 30)]);
    let b = vector_of(&[(2, 20), (4, 40)]);

    let mut ab = vector_of(&[(1, 1)]);
    merge_lin_reads(&mut ab, &a);
    merge_lin_reads(&mut ab, &b);

    let mut ba = vector_of(&[(1, 1)]);
    merge_lin_reads(&mut ba, &b);
    merge_lin_reads(&mut ba, &a);

    for g in [1u64, 2, 3, 4] {
        assert_eq!(ab.get(g), ba.get(g));
    }
    assert_eq!(ab.get(1), Some(10));
    assert_eq!(ab.get(2), Some(20));
    assert_eq!(ab.get(3), Some(30));
    assert_eq!(ab.get(4), Some(40));
}

#[test]
fn insert_replaces_and_get_misses() {
    let mut rv = ReadVector::new();
    assert_eq!(rv.get(9), None);
    rv.insert(9, 1);
    rv.insert(9, 2);
    assert_eq!(rv.get(9), Some(2));
    assert_eq!(rv.len(), 1);
}
