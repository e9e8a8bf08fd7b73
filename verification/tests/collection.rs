use typed_sled::serialize::{
    BincodeSerDe, BincodeSerDeLazy, BincodeSerDeLazyK, BincodeSerDeLazyV, Lazy, Serializer,
};
use typed_sled::tree::merge_bytes;
use typed_sled::{CompareAndSwapError, TreeError, TypedBatch, TypedTree};

fn temp_db() -> sled::Db {
    sled::Config::new().temporary(true).open().unwrap()
}

#[test]
fn test_range() {
    let db = temp_db();

    let tree: TypedTree<u32, u32, BincodeSerDe> = TypedTree::open(&db, "test_tree").unwrap();

    tree.insert(&1, &2).unwrap();
    tree.insert(&3, &4).unwrap();
    tree.insert(&6, &2).unwrap();
    tree.insert(&10, &2).unwrap();
    tree.insert(&15, &2).unwrap();
    tree.flush().unwrap();

    let expect_results = [(6, 2), (10, 2)];

    let mut walk = tree.range(Some(&6), Some(&11));
    let mut i = 0;
    while let Some(result) = walk.next() {
        assert_eq!(result.unwrap(), expect_results[i]);
        i += 1;
    }
    assert_eq!(i, 2);
}

#[test]
fn test_cas() {
    let db = temp_db();

    let tree: TypedTree<u32, u32, BincodeSerDe> = TypedTree::open(&db, "test_tree").unwrap();

    let current = 2;
    tree.insert(&1, &current).unwrap();
    let expected = 3;
    let proposed = 4;
    let res = tree
        .compare_and_swap(&1, Some(&expected), Some(&proposed))
        .expect("db failure");

    assert_eq!(
        res,
        Err(CompareAndSwapError {
            current: Some(current),
            proposed: Some(proposed),
        }),
    );
}

#[test]
fn cas_mismatch_leaves_value_and_match_replaces_it() {
    let db = temp_db();
    let tree: TypedTree<u32, u32, BincodeSerDe> = TypedTree::open(&db, "cas").unwrap();
    tree.insert(&1, &2).unwrap();

    let res = tree.compare_and_swap(&1, Some(&3), Some(&4)).unwrap();
    assert_eq!(res, Err(CompareAndSwapError { current: Some(2), proposed: Some(4) }));
    assert_eq!(tree.get(&1), Ok(Some(2)));

    let res = tree.compare_and_swap(&1, Some(&2), Some(&4)).unwrap();
    assert_eq!(res, Ok(()));
    assert_eq!(tree.get(&1), Ok(Some(4)));
}

#[test]
fn cas_on_absent_key_and_conditional_delete() {
    let db = temp_db();
    let tree: TypedTree<u32, u32, BincodeSerDe> = TypedTree::open(&db, "cas").unwrap();

    assert_eq!(tree.compare_and_swap(&7, None, Some(&1)).unwrap(), Ok(()));
    assert_eq!(tree.get(&7), Ok(Some(1)));
    assert_eq!(
        tree.compare_and_swap(&7, None, Some(&9)).unwrap(),
        Err(CompareAndSwapError { current: Some(1), proposed: Some(9) })
    );
    assert_eq!(tree.compare_and_swap(&7, Some(&1), None).unwrap(), Ok(()));
    assert_eq!(tree.get(&7), Ok(None));
}

#[test]
fn insert_get_remove_hand_out_previous_value() {
    let db = temp_db();
    let tree: TypedTree<u64, i32, BincodeSerDe> = TypedTree::open(&db, "basic").unwrap();

    assert_eq!(tree.get(&1), Ok(None));
    assert_eq!(tree.insert(&1, &-5), Ok(None));
    assert_eq!(tree.insert(&1, &6), Ok(Some(-5)));
    assert_eq!(tree.get(&1), Ok(Some(6)));
    assert_eq!(tree.remove(&1), Ok(Some(6)));
    assert_eq!(tree.remove(&1), Ok(None));
    assert_eq!(tree.get(&1), Ok(None));
}

#[test]
fn first_and_last_are_the_boundaries() {
    let db = temp_db();
    let tree: TypedTree<u32, u32, BincodeSerDe> = TypedTree::open(&db, "bounds").unwrap();
    assert_eq!(tree.first(), Ok(None));
    assert_eq!(tree.last(), Ok(None));
    tree.insert(&3, &30).unwrap();
    tree.insert(&1, &10).unwrap();
    tree.insert(&2, &20).unwrap();
    assert_eq!(tree.first(), Ok(Some((1, 10))));
    assert_eq!(tree.last(), Ok(Some((3, 30))));
}

#[test]
fn range_is_restartable_and_walks_from_both_ends() {
    let db = temp_db();
    let tree: TypedTree<u32, u32, BincodeSerDe> = TypedTree::open(&db, "walk").unwrap();
    for k in [1u32, 3, 6, 10, 15] {
        tree.insert(&k, &(k * 2)).unwrap();
    }

    let mut walk = tree.range(Some(&3), None);
    assert_eq!(walk.next(), Some(Ok((3, 6))));
    assert_eq!(walk.next_back(), Some(Ok((15, 30))));
    assert_eq!(walk.next_back(), Some(Ok((10, 20))));
    assert_eq!(walk.next(), Some(Ok((6, 12))));
    assert_eq!(walk.next(), None);

    let mut again = tree.range(None, Some(&3));
    assert_eq!(again.next(), Some(Ok((1, 2))));
    assert_eq!(again.next(), None);

    assert_eq!(tree.iter().last(), Some(Ok((15, 30))));
}

#[test]
fn range_orders_by_encoded_bytes_not_by_value() {
    // 256 is stored as [0, 1, 0, 0], which sorts before [1, 0, 0, 0].
    let db = temp_db();
    let tree: TypedTree<u32, u32, BincodeSerDe> = TypedTree::open(&db, "order").unwrap();
    tree.insert(&1, &0).unwrap();
    tree.insert(&256, &0).unwrap();
    let mut keys = tree.iter().keys();
    assert_eq!(keys.next(), Some(Ok(256)));
    assert_eq!(keys.next(), Some(Ok(1)));
    assert_eq!(keys.next(), None);
}

#[test]
fn keys_and_values_project_the_walk() {
    let db = temp_db();
    let tree: TypedTree<u32, u64, BincodeSerDe> = TypedTree::open(&db, "proj").unwrap();
    tree.insert(&1, &100).unwrap();
    tree.insert(&2, &200).unwrap();

    let mut keys = tree.iter().keys();
    assert_eq!(keys.next(), Some(Ok(1)));
    assert_eq!(keys.next_back(), Some(Ok(2)));
    assert_eq!(keys.next(), None);

    let mut values = tree.range(Some(&2), None).values();
    assert_eq!(values.next(), Some(Ok(200)));
    assert_eq!(values.next(), None);
}

#[test]
fn bytes_of_an_incompatible_type_are_a_decode_failure() {
    let db = temp_db();
    let narrow: TypedTree<u32, u32, BincodeSerDe> = TypedTree::open(&db, "shared").unwrap();
    narrow.insert(&1, &2).unwrap();

    let wide: TypedTree<u32, u64, BincodeSerDe> = TypedTree::open(&db, "shared").unwrap();
    assert_eq!(wide.get(&1), Err(TreeError::Decode));
    assert_eq!(wide.first(), Err(TreeError::Decode));
    assert_eq!(wide.iter().next(), Some(Err(TreeError::Decode)));
    assert_eq!(wide.compare_and_swap(&1, None, Some(&9)), Err(TreeError::Decode));
    assert_eq!(narrow.get(&1), Ok(Some(2)));
}

#[test]
fn lazy_values_are_decoded_on_demand() {
    let db = temp_db();
    let eager: TypedTree<u32, u32, BincodeSerDe> = TypedTree::open(&db, "lazy").unwrap();
    eager.insert(&7, &70).unwrap();

    let lazy_v: TypedTree<u32, u32, BincodeSerDeLazyV> = TypedTree::open(&db, "lazy").unwrap();
    let found = lazy_v.get(&7).unwrap().unwrap();
    assert_eq!(found.as_bytes(), &[70, 0, 0, 0]);
    assert_eq!(found.try_deserialize(), Some(70));
    assert_eq!(found.try_deserialize(), Some(70));

    let lazy_k: TypedTree<u32, u32, BincodeSerDeLazyK> = TypedTree::open(&db, "lazy").unwrap();
    let (k, v) = lazy_k.first().unwrap().unwrap();
    assert_eq!(k.as_bytes(), &[7, 0, 0, 0]);
    assert_eq!(k.try_deserialize(), Some(7));
    assert_eq!(v, 70);

    let lazy: TypedTree<u32, u32, BincodeSerDeLazy> = TypedTree::open(&db, "lazy").unwrap();
    let (k, v) = lazy.last().unwrap().unwrap();
    assert_eq!(k.try_deserialize(), Some(7));
    assert_eq!(v.try_deserialize(), Some(70));
}

#[test]
fn lazy_handle_on_incompatible_bytes_decodes_to_nothing() {
    let db = temp_db();
    let narrow: TypedTree<u32, u8, BincodeSerDe> = TypedTree::open(&db, "lazybad").unwrap();
    narrow.insert(&1, &9).unwrap();
    let wide: TypedTree<u32, u64, BincodeSerDeLazyV> = TypedTree::open(&db, "lazybad").unwrap();
    let found = wide.get(&1).unwrap().unwrap();
    assert_eq!(found.try_deserialize(), None);
}

#[test]
fn batch_applies_last_write_for_each_key() {
    let db = temp_db();
    let tree: TypedTree<u32, u32, BincodeSerDe> = TypedTree::open(&db, "batch").unwrap();
    tree.insert(&0, &100).unwrap();

    let mut batch: TypedBatch<u32, u32, BincodeSerDe> = TypedBatch::new();
    batch.insert(&1, &1);
    batch.insert(&1, &11);
    batch.insert(&2, &2);
    batch.remove(&2);
    batch.remove(&0);
    batch.remove(&3);
    batch.insert(&3, &33);
    assert_eq!(tree.get(&1), Ok(None));

    tree.apply_batch(batch).unwrap();
    assert_eq!(tree.get(&0), Ok(None));
    assert_eq!(tree.get(&1), Ok(Some(11)));
    assert_eq!(tree.get(&2), Ok(None));
    assert_eq!(tree.get(&3), Ok(Some(33)));
}

#[test]
fn string_keys_and_values() {
    let db = temp_db();
    let tree: TypedTree<String, String, BincodeSerDe> = TypedTree::open(&db, "unique_id").unwrap();
    assert_eq!(tree.insert(&"some_key".to_owned(), &"ten".to_owned()), Ok(None));
    assert_eq!(tree.get(&"some_key".to_owned()), Ok(Some("ten".to_owned())));
    assert_eq!(tree.get(&"some".to_owned()), Ok(None));
    // a borrowed key finds what the owned key stored
    assert_eq!(tree.get("some_key"), Ok(Some("ten".to_owned())));
    assert_eq!(tree.remove("some_key"), Ok(Some("ten".to_owned())));
    assert_eq!(tree.insert("other", &"x".to_owned()), Ok(None));
    assert_eq!(tree.compare_and_swap("other", None, Some(&"y".to_owned())).unwrap().is_err(), true);
    let mut batch: TypedBatch<String, String, BincodeSerDe> = TypedBatch::new();
    batch.remove("other");
    batch.insert("third", &"z".to_owned());
    tree.apply_batch(batch).unwrap();
    assert_eq!(tree.get("other"), Ok(None));
    assert_eq!(tree.first(), Ok(Some(("third".to_owned(), "z".to_owned()))));
}

#[test]
fn merge_uses_the_merge_function_and_insert_bypasses_it() {
    let db = temp_db();
    let tree: TypedTree<String, u32, BincodeSerDe> = TypedTree::open(&db, "merge").unwrap();
    let k = String::from("some_key");

    // without a merge function the engine refuses
    assert!(matches!(tree.merge(&k, &1), Err(TreeError::Storage(_))));

    // sum the incoming value into the stored one; a sum of 100 removes the key
    tree.set_merge_operator(|_key: String, old: Option<u32>, incoming: u32| {
        let sum = old.unwrap_or(0) + incoming;
        if sum == 100 {
            None
        } else {
            Some(sum)
        }
    });

    tree.insert(&k, &1).unwrap();
    assert_eq!(tree.merge(&k, &2), Ok(Some(3)));
    assert_eq!(tree.merge(&k, &4), Ok(Some(7)));
    assert_eq!(tree.get(&k), Ok(Some(7)));

    tree.insert(&k, &50).unwrap();
    assert_eq!(tree.get(&k), Ok(Some(50)));

    tree.remove(&k).unwrap();
    assert_eq!(tree.merge(&k, &4), Ok(Some(4)));
    assert_eq!(tree.merge(&k, &96), Ok(None));
    assert_eq!(tree.get(&k), Ok(None));
}

#[test]
fn merge_bytes_leaves_undecodable_values_alone() {
    let f = |_k: u32, old: Option<u32>, incoming: u32| Some(old.unwrap_or(0) + incoming);
    assert_eq!(
        merge_bytes::<u32, u32, _>(&f, &[1, 0, 0, 0], Some(&[2, 0, 0, 0]), &[3, 0, 0, 0]),
        Some(vec![5, 0, 0, 0])
    );
    assert_eq!(
        merge_bytes::<u32, u32, _>(&f, &[1, 0, 0, 0], None, &[3, 0, 0, 0]),
        Some(vec![3, 0, 0, 0])
    );
    // the stored value is too short for a u32
    assert_eq!(
        merge_bytes::<u32, u32, _>(&f, &[1, 0, 0, 0], Some(&[2, 0]), &[3, 0, 0, 0]),
        Some(vec![2, 0])
    );
    // the key is too short
    assert_eq!(merge_bytes::<u32, u32, _>(&f, &[1], None, &[3, 0, 0, 0]), None);
}

#[test]
fn lazy_handles_can_be_stored_back() {
    use_lazy_serializer();
}

fn use_lazy_serializer() {
    let handle = Lazy::<u32>::new(vec![9, 0, 0, 0]);
    let bytes = <BincodeSerDeLazy as Serializer<Lazy<u32>>>::serialize(&handle);
    assert_eq!(bytes, vec![9, 0, 0, 0]);
    let bytes = <BincodeSerDeLazyK as Serializer<Lazy<u32>>>::serialize(&handle);
    assert_eq!(bytes, vec![9, 0, 0, 0]);
    let bytes = <BincodeSerDeLazyV as Serializer<Lazy<u32>>>::serialize(&handle);
    assert_eq!(bytes, vec![9, 0, 0, 0]);
}

#[test]
fn an_opened_collection_has_the_name_asked_for() {
    let db = temp_db();
    let tree: TypedTree<u32, u32, BincodeSerDe> = TypedTree::open(&db, "test_tree").unwrap();
    assert_eq!(&tree.as_sled().name()[..], &b"test_tree"[..]);
    let again: TypedTree<u32, u32, BincodeSerDe> = TypedTree::open(&db, "test_tree").unwrap();
    assert_eq!(&again.as_sled().name()[..], &b"test_tree"[..]);
    let accented: TypedTree<u32, u32, BincodeSerDe> = TypedTree::open(&db, "é").unwrap();
    assert_eq!(&accented.as_sled().name()[..], &[0xc3, 0xa9][..]);
}

#[test]
fn a_walk_without_a_lower_bound_starts_at_the_least_key() {
    let db = temp_db();
    let tree: TypedTree<u8, u8, BincodeSerDe> = TypedTree::open(&db, "least").unwrap();
    tree.insert(&0, &1).unwrap();
    tree.insert(&9, &2).unwrap();
    assert_eq!(tree.range(None, Some(&9)).next(), Some(Ok((0, 1))));
    assert_eq!(tree.range(None, Some(&9)).next_back(), Some(Ok((0, 1))));
    assert_eq!(tree.range(Some(&9), Some(&9)).next(), None);
    assert_eq!(tree.range(Some(&9), None).next(), Some(Ok((9, 2))));
    assert_eq!(tree.iter().next_back(), Some(Ok((9, 2))));
}

#[test]
fn the_two_ends_of_a_walk_do_not_cross() {
    let db = temp_db();
    let tree: TypedTree<u32, u32, BincodeSerDe> = TypedTree::open(&db, "ends").unwrap();
    for k in [1u32, 3, 6, 10, 15] {
        tree.insert(&k, &k).unwrap();
    }
    let mut walk = tree.range(Some(&3), Some(&10));
    // from the back: at or after the lower bound, before the upper bound
    assert_eq!(walk.next_back(), Some(Ok((6, 6))));
    // from the front: before the key that the back has handed out
    assert_eq!(walk.next(), Some(Ok((3, 3))));
    assert_eq!(walk.next(), None);
    assert_eq!(walk.next_back(), None);

    let mut keys = tree.range(None, Some(&6)).keys();
    assert_eq!(keys.next_back(), Some(Ok(3)));
    assert_eq!(keys.next(), Some(Ok(1)));
    assert_eq!(keys.next(), None);
    assert_eq!(tree.range(Some(&7), Some(&10)).last(), None);
    assert_eq!(tree.range(Some(&6), Some(&11)).last(), Some(Ok((10, 10))));
}
