use typed_sled::error::{abort, Interrupt, TransactionFailure};
use typed_sled::key_generating::{
    counter_start, Counter, CounterTree, KeyGenerating, KeyGeneratingTransactionalTree,
};
use typed_sled::transaction::Transactional;
use typed_sled::serialize::BincodeSerDe;
use typed_sled::{TreeError, TypedTree};

fn temp_db() -> sled::Db {
    sled::Config::new().temporary(true).open().unwrap()
}

#[test]
fn counter_issues_zero_then_one_and_resumes_after_reopening() {
    let db = temp_db();
    let tree: CounterTree<u32> = CounterTree::open(&db, "unique_id").unwrap();

    let (first_key, previous) = tree.insert(&5).unwrap();
    assert_eq!(previous, None);
    let (second_key, _) = tree.insert(&6).unwrap();

    assert_eq!(first_key, 0);
    assert_eq!(second_key, 1);
    assert_eq!(tree.get(&0), Ok(Some(5)));
    assert_eq!(tree.get(&1), Ok(Some(6)));

    let reopened: CounterTree<u32> = CounterTree::open(&db, "unique_id").unwrap();
    let (third_key, _) = reopened.insert(&7).unwrap();
    assert_eq!(third_key, 2);
    assert_eq!(reopened.get(&2), Ok(Some(7)));
}

#[test]
fn counter_starts_after_the_greatest_key() {
    assert_eq!(counter_start(None), Some(0));
    assert_eq!(counter_start(Some(0)), Some(1));
    assert_eq!(counter_start(Some(41)), Some(42));
    assert_eq!(counter_start(Some(u64::MAX - 1)), Some(u64::MAX));
    assert_eq!(counter_start(Some(u64::MAX)), None);
}

#[test]
fn counter_on_a_full_key_space_cannot_be_opened() {
    let db = temp_db();
    let plain: TypedTree<u64, u32, BincodeSerDe> = TypedTree::open(&db, "full").unwrap();
    plain.insert(&u64::MAX, &1).unwrap();
    let opened: Result<CounterTree<u32>, TreeError> = CounterTree::open(&db, "full");
    assert!(matches!(opened, Err(TreeError::KeysExhausted)));
}

#[test]
fn counter_never_issues_a_key_twice() {
    let counter = Counter::starting_at(10);
    assert_eq!(counter.issue(), 10);
    assert_eq!(counter.issue(), 11);
    assert_eq!(<Counter as KeyGenerating<u32>>::next_key(&counter), 12);
}

#[test]
fn next_key_skips_a_key_and_insert_with_key_fills_it() {
    let db = temp_db();
    let tree: CounterTree<u32> = CounterTree::open(&db, "skip").unwrap();
    let reserved = tree.next_key();
    assert_eq!(reserved, 0);
    let (key, _) = tree.insert(&1).unwrap();
    assert_eq!(key, 1);
    assert_eq!(tree.get(&0), Ok(None));
    assert_eq!(tree.insert_with_key(&reserved, &9), Ok(None));
    assert_eq!(tree.insert_with_key(&reserved, &10), Ok(Some(9)));
    assert_eq!(tree.as_tree().get(&0), Ok(Some(10)));
}

#[test]
fn insert_fn_builds_the_value_from_the_key() {
    let db = temp_db();
    let tree: CounterTree<u64> = CounterTree::open(&db, "fn").unwrap();
    tree.insert(&0).unwrap();
    let (key, previous) = tree.insert_fn(|k| *k * 100).unwrap();
    assert_eq!(key, 1);
    assert_eq!(previous, None);
    assert_eq!(tree.get(&1), Ok(Some(100)));
}

#[test]
fn batch_inserts_draw_keys_in_order() {
    let db = temp_db();
    let tree: CounterTree<u32> = CounterTree::open(&db, "kgbatch").unwrap();
    tree.insert(&50).unwrap();

    let mut batch = tree.new_batch();
    batch.insert(&51);
    batch.insert(&52);
    batch.remove(&0);
    assert_eq!(tree.get(&1), Ok(None));
    tree.apply_batch(batch).unwrap();

    assert_eq!(tree.get(&0), Ok(None));
    assert_eq!(tree.get(&1), Ok(Some(51)));
    assert_eq!(tree.get(&2), Ok(Some(52)));
    assert_eq!(tree.next_key(), 3);
    assert_eq!(*tree.key_generator().issue().to_string(), *"4");
}

#[test]
fn transactional_inserts_draw_keys_from_the_generator() {
    let db = temp_db();
    let tree: CounterTree<u32> = CounterTree::open(&db, "kgtx").unwrap();

    let res: Result<(), TransactionFailure<()>> = tree.transaction(|view| {
        assert_eq!(view.insert(&7)?, None);
        assert_eq!(view.insert(&8)?, None);
        let mut batch = tree.new_batch();
        batch.insert(&9);
        view.apply_batch(&batch)?;
        assert_eq!(view.as_view().get(&1)?, Some(8));
        Ok(())
    });
    assert_eq!(res, Ok(()));
    assert_eq!(tree.get(&0), Ok(Some(7)));
    assert_eq!(tree.get(&1), Ok(Some(8)));
    assert_eq!(tree.get(&2), Ok(Some(9)));

    let res: Result<(), TransactionFailure<u8>> = tree.transaction(|view| {
        view.insert(&10)?;
        abort(3)
    });
    assert_eq!(res, Err(TransactionFailure::Abort(3)));
    assert_eq!(tree.get(&3), Ok(None));
    let unused: Result<(), Interrupt<u8>> = abort(1);
    assert_eq!(unused, Err(Interrupt::Abort(1)));
}

#[test]
fn clones_of_a_counter_share_one_sequence() {
    let counter = Counter::starting_at(5);
    let other = counter.clone();
    assert_eq!(counter.issue(), 5);
    assert_eq!(other.issue(), 6);
    assert_eq!(counter.issue(), 7);
}

#[test]
fn generated_keys_in_a_transaction_on_two_collections() {
    let db = temp_db();
    let log: CounterTree<u32> = CounterTree::open(&db, "log").unwrap();
    let index: TypedTree<u32, u64, BincodeSerDe> = TypedTree::open(&db, "index").unwrap();

    let res: Result<(), TransactionFailure<()>> =
        (log.as_tree(), &index).transaction(|(log_view, index_view)| {
            let log_view = KeyGeneratingTransactionalTree::view(&log, log_view.as_sled());
            log_view.insert(&77)?;
            index_view.insert(&77, &0)?;
            Ok(())
        });
    assert_eq!(res, Ok(()));
    assert_eq!(log.get(&0), Ok(Some(77)));
    assert_eq!(index.get(&77), Ok(Some(0)));
}

#[test]
fn counter_resumes_after_the_last_entry_in_encoded_order() {
    let db = temp_db();
    let tree: CounterTree<u32> = CounterTree::open(&db, "many").unwrap();
    for i in 0..=256u32 {
        let (key, _) = tree.insert(&i).unwrap();
        assert_eq!(key, i as u64);
    }
    // 255 is stored as [255, 0, ...] and sorts after 256, stored as [0, 1, ...].
    assert_eq!(tree.as_tree().last(), Ok(Some((255, 255))));
    let reopened: CounterTree<u32> = CounterTree::open(&db, "many").unwrap();
    assert_eq!(reopened.next_key(), 256);
}

#[test]
fn an_opened_counter_tree_keeps_its_name_and_starts_after_the_last_key() {
    let db = temp_db();
    let plain: TypedTree<u64, u32, BincodeSerDe> = TypedTree::open(&db, "seeded").unwrap();
    plain.insert(&41, &0).unwrap();
    let tree: CounterTree<u32> = CounterTree::open(&db, "seeded").unwrap();
    assert_eq!(&tree.as_tree().as_sled().name()[..], &b"seeded"[..]);
    assert_eq!(tree.next_key(), 42);
    assert_eq!(tree.key_generator().issue(), 43);
}

#[test]
fn a_counter_cannot_be_made_on_keys_that_do_not_decode() {
    let db = temp_db();
    let narrow: TypedTree<u32, u32, BincodeSerDe> = TypedTree::open(&db, "narrow").unwrap();
    narrow.insert(&1, &1).unwrap();
    let opened: Result<CounterTree<u32>, TreeError> = CounterTree::open(&db, "narrow");
    assert!(matches!(opened, Err(TreeError::Decode)));
}

#[test]
fn a_view_draws_from_the_generator_of_its_collection() {
    let db = temp_db();
    let tree: CounterTree<i32> = CounterTree::open(&db, "unique_id").unwrap();
    assert_eq!(tree.insert(&5), Ok((0, None)));
    let res: Result<(), TransactionFailure<()>> = tree.transaction(|t| {
        t.insert(&6)?;
        Ok(())
    });
    assert_eq!(res, Ok(()));
    assert_eq!(tree.get(&1), Ok(Some(6)));
    assert_eq!(tree.insert(&7), Ok((2, None)));
}

#[test]
fn a_counter_never_issues_a_key_before_its_first() {
    let counter = Counter::starting_at(u64::MAX - 1);
    assert_eq!(counter.issue(), u64::MAX - 1);
    assert_eq!(counter.issue(), u64::MAX);
    // past the greatest key the counter stays at its first key
    assert_eq!(counter.issue(), u64::MAX - 1);
    let fresh = Counter::starting_at(0);
    assert_eq!(fresh.issue(), 0);
    assert_eq!(fresh.issue(), 1);
}
