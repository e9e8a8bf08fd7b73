use std::sync::Arc;
use typed_sled::join::{flatten, join, push_resolved, Join};
use typed_sled::serialize::BincodeSerDe;
use typed_sled::TypedTree;

#[test]
fn test() {
    let db = sled::Config::new().temporary(true).open().unwrap();

    let tree1: TypedTree<u32, u64, BincodeSerDe> = TypedTree::open(&db, "tree1").unwrap();
    let tree2: TypedTree<u64, u32, BincodeSerDe> = TypedTree::open(&db, "tree2").unwrap();

    let joined = (&tree1, &tree2).join(|v: &u64| vec![*v]);
    assert_eq!(joined.get(&123), Ok(None));
}

#[test]
fn join_passes_over_missing_destination_keys() {
    let db = sled::Config::new().temporary(true).open().unwrap();
    let src: TypedTree<u32, u64, BincodeSerDe> = TypedTree::open(&db, "src").unwrap();
    let dest: TypedTree<u64, u32, BincodeSerDe> = TypedTree::open(&db, "dest").unwrap();
    // The source value 7 refers to the destination keys 7 and 8; only 7 is there.
    src.insert(&1, &7).unwrap();
    dest.insert(&7, &70).unwrap();

    let joined = join(&src, &dest, |v: &u64| vec![*v, *v + 1]);
    assert_eq!(joined.get(&1), Ok(Some((7, vec![(7, 70)]))));
    assert_eq!(joined.get_flat(&1), Ok(vec![(Arc::new(7), 7, 70)]));
}

#[test]
fn join_keeps_the_order_of_the_extracted_keys() {
    let db = sled::Config::new().temporary(true).open().unwrap();
    let src: TypedTree<u32, u64, BincodeSerDe> = TypedTree::open(&db, "src").unwrap();
    let dest: TypedTree<u64, u32, BincodeSerDe> = TypedTree::open(&db, "dest").unwrap();
    src.insert(&1, &10).unwrap();
    dest.insert(&10, &100).unwrap();
    dest.insert(&11, &110).unwrap();
    dest.insert(&13, &130).unwrap();

    let joined = join(&src, &dest, |v: &u64| vec![*v + 3, *v + 2, *v, *v + 1, *v]);
    assert_eq!(
        joined.get(&1),
        Ok(Some((10, vec![(13, 130), (10, 100), (11, 110), (10, 100)])))
    );
    let rows = joined.get_flat(&1).unwrap();
    assert_eq!(rows.len(), 4);
    assert!(Arc::ptr_eq(&rows[0].0, &rows[3].0));
    assert_eq!((*rows[1].0, rows[1].1, rows[1].2), (10, 10, 100));
    assert_eq!(joined.resolve(&10).unwrap().len(), 4);
}

#[test]
fn join_of_an_absent_source_key_is_empty() {
    let db = sled::Config::new().temporary(true).open().unwrap();
    let src: TypedTree<u32, u64, BincodeSerDe> = TypedTree::open(&db, "src").unwrap();
    let dest: TypedTree<u64, u32, BincodeSerDe> = TypedTree::open(&db, "dest").unwrap();
    dest.insert(&1, &1).unwrap();
    let joined = join(&src, &dest, |v: &u64| vec![*v]);
    assert_eq!(joined.get(&5), Ok(None));
    assert_eq!(joined.get_flat(&5), Ok(vec![]));
}

#[test]
fn join_with_no_extracted_keys_has_no_pairs() {
    let db = sled::Config::new().temporary(true).open().unwrap();
    let src: TypedTree<u32, u64, BincodeSerDe> = TypedTree::open(&db, "src").unwrap();
    let dest: TypedTree<u64, u32, BincodeSerDe> = TypedTree::open(&db, "dest").unwrap();
    src.insert(&1, &1).unwrap();
    let joined = join(&src, &dest, |_v: &u64| Vec::new());
    assert_eq!(joined.get(&1), Ok(Some((1, vec![]))));
    assert_eq!(joined.get_flat(&1), Ok(vec![]));
}

#[test]
fn resolved_pairs_and_rows() {
    let mut pairs: Vec<(u64, u32)> = Vec::new();
    push_resolved(&mut pairs, 1, Some(10));
    push_resolved(&mut pairs, 2, None);
    push_resolved(&mut pairs, 3, Some(30));
    assert_eq!(pairs, vec![(1, 10), (3, 30)]);
    let rows = flatten(9u8, pairs);
    assert_eq!(rows, vec![(Arc::new(9), 1, 10), (Arc::new(9), 3, 30)]);
    assert!(Arc::ptr_eq(&rows[0].0, &rows[1].0));
}
