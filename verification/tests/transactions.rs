use typed_sled::error::{abort, Interrupt, TransactionFailure, ViewError};
use typed_sled::serialize::BincodeSerDe;
use typed_sled::transaction::{transaction10, transaction2, transaction3, Transactional};
use typed_sled::{TypedBatch, TypedTree};

fn temp_db() -> sled::Db {
    sled::Config::new().temporary(true).open().unwrap()
}

#[test]
fn test_multiple_tree_transaction() {
    let db = temp_db();
    let tree0 = TypedTree::<u32, i32, BincodeSerDe>::open(&db, "tree0").unwrap();
    let tree1 = TypedTree::<u16, i16, BincodeSerDe>::open(&db, "tree1").unwrap();
    let tree2 = TypedTree::<String, i8, BincodeSerDe>::open(&db, "tree2").unwrap();

    (&tree0, &tree1, &tree2)
        .transaction(|(tree0, tree1, tree2)| {
            tree0.insert(&0, &0)?;
            tree1.insert(&0, &0)?;
            tree2.insert("asd", &0)?;
            Ok::<_, Interrupt<()>>(())
        })
        .unwrap();

    assert_eq!(tree0.get(&0), Ok(Some(0)));
    assert_eq!(tree1.get(&0), Ok(Some(0)));
    assert_eq!(tree2.get("asd"), Ok(Some(0)));
    assert_eq!(tree2.get(&"asd".to_string()), Ok(Some(0)));
}

#[test]
fn aborted_transaction_writes_to_none_of_its_collections() {
    let db = temp_db();
    let a = TypedTree::<u32, u32, BincodeSerDe>::open(&db, "a").unwrap();
    let b = TypedTree::<u32, u32, BincodeSerDe>::open(&db, "b").unwrap();
    let c = TypedTree::<u32, u32, BincodeSerDe>::open(&db, "c").unwrap();
    a.insert(&1, &1).unwrap();

    let res: Result<(), TransactionFailure<u32>> =
        transaction3((&a, &b, &c), |(a, b, c)| {
            a.insert(&1, &10)?;
            b.insert(&1, &20)?;
            c.remove(&1)?;
            let seen = a.get(&1)?;
            assert_eq!(seen, Some(10));
            abort(42)
        });
    assert_eq!(res, Err(TransactionFailure::Abort(42)));
    assert_eq!(a.get(&1), Ok(Some(1)));
    assert_eq!(b.get(&1), Ok(None));
    assert_eq!(c.get(&1), Ok(None));
}

#[test]
fn transaction_hands_out_the_value_of_its_body() {
    let db = temp_db();
    let tree = TypedTree::<u32, u32, BincodeSerDe>::open(&db, "single").unwrap();
    tree.insert(&1, &5).unwrap();
    let res: Result<u32, TransactionFailure<()>> = tree.transaction(|view| {
        let old = view.insert(&1, &6)?;
        let gone = view.remove(&2)?;
        assert_eq!(gone, None);
        view.flush();
        Ok(old.unwrap() + 1)
    });
    assert_eq!(res, Ok(6));
    assert_eq!(tree.get(&1), Ok(Some(6)));
}

#[test]
fn views_keep_the_order_of_their_collections() {
    let db = temp_db();
    let left = TypedTree::<u32, u32, BincodeSerDe>::open(&db, "left").unwrap();
    let right = TypedTree::<u32, u64, BincodeSerDe>::open(&db, "right").unwrap();
    left.insert(&1, &11).unwrap();
    right.insert(&1, &22).unwrap();
    let res: Result<(Option<u32>, Option<u64>), TransactionFailure<()>> =
        transaction2((&left, &right), |(l, r)| Ok((l.get(&1)?, r.get(&1)?)));
    assert_eq!(res, Ok((Some(11), Some(22))));
}

#[test]
fn decode_failure_in_a_body_fails_the_transaction() {
    let db = temp_db();
    let narrow = TypedTree::<u32, u8, BincodeSerDe>::open(&db, "mixed").unwrap();
    narrow.insert(&1, &1).unwrap();
    let wide = TypedTree::<u32, u64, BincodeSerDe>::open(&db, "mixed").unwrap();
    let res: Result<(), TransactionFailure<()>> = wide.transaction(|view| {
        let got = view.get(&1);
        assert_eq!(got, Err(ViewError::Decode));
        view.insert(&2, &2)?;
        got?;
        Ok(())
    });
    assert_eq!(res, Err(TransactionFailure::Decode));
    assert_eq!(wide.get(&2), Ok(None));
}

#[test]
fn batch_inside_a_transaction() {
    let db = temp_db();
    let tree = TypedTree::<u32, u32, BincodeSerDe>::open(&db, "txbatch").unwrap();
    tree.insert(&1, &1).unwrap();
    let mut batch: TypedBatch<u32, u32, BincodeSerDe> = TypedBatch::new();
    batch.insert(&2, &2);
    batch.remove(&1);
    let res: Result<(), TransactionFailure<()>> = tree.transaction(|view| {
        view.apply_batch(&batch)?;
        Ok(())
    });
    assert_eq!(res, Ok(()));
    assert_eq!(tree.get(&1), Ok(None));
    assert_eq!(tree.get(&2), Ok(Some(2)));
}

#[test]
fn generate_id_gives_increasing_identifiers() {
    let db = temp_db();
    let tree = TypedTree::<u32, u32, BincodeSerDe>::open(&db, "ids").unwrap();
    let res: Result<(u64, u64), TransactionFailure<()>> = tree.transaction(|view| {
        let a = view.generate_id().unwrap();
        let b = view.generate_id().unwrap();
        Ok((a, b))
    });
    let (a, b) = res.unwrap();
    assert!(a < b);
}

#[test]
fn tuple_of_one_collection() {
    let db = temp_db();
    let tree = TypedTree::<u32, u32, BincodeSerDe>::open(&db, "one").unwrap();
    let res = (&tree,).transaction(|(view,)| {
        view.insert(&1, &2)?;
        Ok::<_, Interrupt<()>>(7u8)
    });
    assert_eq!(res, Ok(7));
    assert_eq!(tree.get(&1), Ok(Some(2)));
}

#[test]
fn ten_collections_in_one_transaction() {
    let db = temp_db();
    let t0 = TypedTree::<u8, u8, BincodeSerDe>::open(&db, "t0").unwrap();
    let t1 = TypedTree::<u16, u8, BincodeSerDe>::open(&db, "t1").unwrap();
    let t2 = TypedTree::<u32, u8, BincodeSerDe>::open(&db, "t2").unwrap();
    let t3 = TypedTree::<u64, u8, BincodeSerDe>::open(&db, "t3").unwrap();
    let t4 = TypedTree::<i8, u8, BincodeSerDe>::open(&db, "t4").unwrap();
    let t5 = TypedTree::<i16, u8, BincodeSerDe>::open(&db, "t5").unwrap();
    let t6 = TypedTree::<i32, u8, BincodeSerDe>::open(&db, "t6").unwrap();
    let t7 = TypedTree::<i64, u8, BincodeSerDe>::open(&db, "t7").unwrap();
    let t8 = TypedTree::<String, u8, BincodeSerDe>::open(&db, "t8").unwrap();
    let t9 = TypedTree::<u8, String, BincodeSerDe>::open(&db, "t9").unwrap();

    let res: Result<(), TransactionFailure<()>> = transaction10(
        (&t0, &t1, &t2, &t3, &t4, &t5, &t6, &t7, &t8, &t9),
        |(v0, v1, v2, v3, v4, v5, v6, v7, v8, v9)| {
            v0.insert(&0, &0)?;
            v1.insert(&1, &1)?;
            v2.insert(&2, &2)?;
            v3.insert(&3, &3)?;
            v4.insert(&-4, &4)?;
            v5.insert(&-5, &5)?;
            v6.insert(&-6, &6)?;
            v7.insert(&-7, &7)?;
            v8.insert(&"eight".to_string(), &8)?;
            v9.insert(&9, &"nine".to_string())?;
            Ok(())
        },
    );
    assert_eq!(res, Ok(()));
    assert_eq!(t0.get(&0), Ok(Some(0)));
    assert_eq!(t4.get(&-4), Ok(Some(4)));
    assert_eq!(t7.get(&-7), Ok(Some(7)));
    assert_eq!(t8.get(&"eight".to_string()), Ok(Some(8)));
    assert_eq!(t9.get(&9), Ok(Some("nine".to_string())));
}

#[test]
fn collections_of_two_stores_cannot_share_a_transaction() {
    let db_a = temp_db();
    let db_b = temp_db();
    let a = TypedTree::<u32, u32, BincodeSerDe>::open(&db_a, "a").unwrap();
    let b = TypedTree::<u32, u32, BincodeSerDe>::open(&db_b, "b").unwrap();
    let res: Result<(), TransactionFailure<()>> = transaction2((&a, &b), |(a, b)| {
        a.insert(&1, &1)?;
        b.insert(&1, &1)?;
        Ok(())
    });
    assert!(matches!(res, Err(TransactionFailure::Storage(_))));
    assert_eq!(a.get(&1), Ok(None));
    assert_eq!(b.get(&1), Ok(None));
}

#[test]
fn a_batch_without_writes_cannot_fail_in_a_transaction() {
    let db = temp_db();
    let tree = TypedTree::<u32, u32, BincodeSerDe>::open(&db, "empty").unwrap();
    let batch: TypedBatch<u32, u32, BincodeSerDe> = TypedBatch::new();
    let res: Result<bool, TransactionFailure<()>> =
        tree.transaction(|view| Ok(view.apply_batch(&batch).is_ok()));
    assert_eq!(res, Ok(true));
    assert_eq!(tree.first(), Ok(None));
}

#[test]
fn each_view_writes_to_the_collection_at_its_place() {
    let db = temp_db();
    let a = TypedTree::<u32, i32, BincodeSerDe>::open(&db, "tree0").unwrap();
    let b = TypedTree::<u16, i16, BincodeSerDe>::open(&db, "tree1").unwrap();
    let res: Result<(), TransactionFailure<()>> = (&a, &b).transaction(|(x, y)| {
        assert_eq!(x.insert(&1, &10)?, None);
        assert_eq!(y.insert(&2, &20)?, None);
        assert_eq!(&x.as_sled().get([1u8, 0, 0, 0]).unwrap().unwrap()[..], &[10u8, 0, 0, 0][..]);
        Ok(())
    });
    assert_eq!(res, Ok(()));
    assert_eq!(a.get(&1), Ok(Some(10)));
    assert_eq!(a.get(&2), Ok(None));
    assert_eq!(b.get(&2), Ok(Some(20)));
    assert_eq!(b.get(&1), Ok(None));
}
