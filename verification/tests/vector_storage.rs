use simse_core::vector_storage::VectorStorage;

#[test]
fn insert_and_get_single() {
    let mut vs = VectorStorage::<f32>::new(3);
    vs.insert("a", &[1.0, 2.0, 3.0]);

    assert_eq!(vs.len(), 1);
    assert!(!vs.is_empty());
    assert_eq!(vs.get("a"), Some([1.0, 2.0, 3.0].as_slice()));
}

#[test]
fn insert_multiple_and_get() {
    let mut vs = VectorStorage::<f32>::new(2);
    vs.insert("x", &[1.0, 2.0]);
    vs.insert("y", &[3.0, 4.0]);
    vs.insert("z", &[5.0, 6.0]);

    assert_eq!(vs.len(), 3);
    assert_eq!(vs.get("x"), Some([1.0, 2.0].as_slice()));
    assert_eq!(vs.get("y"), Some([3.0, 4.0].as_slice()));
    assert_eq!(vs.get("z"), Some([5.0, 6.0].as_slice()));
}

#[test]
fn get_nonexistent_returns_none() {
    let vs = VectorStorage::<f32>::new(2);
    assert_eq!(vs.get("missing"), None);
}


#[test]
fn insert_batch_and_get() {
    let mut vs = VectorStorage::<f32>::new(2);
    vs.insert_batch(&[("a", &[1.0, 2.0]), ("b", &[3.0, 4.0]), ("c", &[5.0, 6.0])]);

    assert_eq!(vs.len(), 3);
    assert_eq!(vs.get("a"), Some([1.0, 2.0].as_slice()));
    assert_eq!(vs.get("b"), Some([3.0, 4.0].as_slice()));
    assert_eq!(vs.get("c"), Some([5.0, 6.0].as_slice()));
}


#[test]
fn duplicate_id_insert_overwrites() {
    let mut vs = VectorStorage::<f32>::new(3);
    vs.insert("a", &[1.0, 2.0, 3.0]);
    vs.insert("a", &[7.0, 8.0, 9.0]);

    assert_eq!(vs.len(), 1);
    assert_eq!(vs.get("a"), Some([7.0, 8.0, 9.0].as_slice()));
}

#[test]
fn duplicate_id_insert_batch_overwrites() {
    let mut vs = VectorStorage::<f32>::new(2);
    vs.insert_batch(&[("a", &[1.0, 2.0]), ("a", &[9.0, 8.0])]);

    assert_eq!(vs.len(), 1);
    assert_eq!(vs.get("a"), Some([9.0, 8.0].as_slice()));
}


#[test]
fn remove_single_entry() {
    let mut vs = VectorStorage::<f32>::new(2);
    vs.insert("a", &[1.0, 2.0]);

    assert!(vs.remove("a"));
    assert_eq!(vs.len(), 0);
    assert!(vs.is_empty());
    assert_eq!(vs.get("a"), None);
    assert!(vs.raw_embeddings().is_empty());
}

#[test]
fn vector_storage_remove_nonexistent_returns_false() {
    let mut vs = VectorStorage::<f32>::new(2);
    vs.insert("a", &[1.0, 2.0]);

    assert!(!vs.remove("missing"));
    assert_eq!(vs.len(), 1);
}

#[test]
fn remove_swap_keeps_data_contiguous() {
    let mut vs = VectorStorage::<f32>::new(2);
    vs.insert("a", &[1.0, 2.0]);
    vs.insert("b", &[3.0, 4.0]);
    vs.insert("c", &[5.0, 6.0]);

    // Remove the first entry; "c" (last) should be swapped into slot 0.
    assert!(vs.remove("a"));

    assert_eq!(vs.len(), 2);
    assert!(!vs.contains("a"));

    // Both remaining entries must be retrievable and correct.
    assert_eq!(vs.get("b"), Some([3.0, 4.0].as_slice()));
    assert_eq!(vs.get("c"), Some([5.0, 6.0].as_slice()));

    // Raw buffer must be exactly 2 * dimensions long (no holes).
    assert_eq!(vs.raw_embeddings().len(), 2 * 2);
}

#[test]
fn remove_middle_element() {
    let mut vs = VectorStorage::<f32>::new(3);
    vs.insert("a", &[1.0, 2.0, 3.0]);
    vs.insert("b", &[4.0, 5.0, 6.0]);
    vs.insert("c", &[7.0, 8.0, 9.0]);

    // Remove middle; "c" swaps into slot 1.
    assert!(vs.remove("b"));

    assert_eq!(vs.len(), 2);
    assert_eq!(vs.get("a"), Some([1.0, 2.0, 3.0].as_slice()));
    assert_eq!(vs.get("c"), Some([7.0, 8.0, 9.0].as_slice()));
    assert_eq!(vs.raw_embeddings().len(), 2 * 3);
}

#[test]
fn remove_last_element_no_swap_needed() {
    let mut vs = VectorStorage::<f32>::new(2);
    vs.insert("a", &[1.0, 2.0]);
    vs.insert("b", &[3.0, 4.0]);

    // Remove the last entry — no swap needed.
    assert!(vs.remove("b"));

    assert_eq!(vs.len(), 1);
    assert_eq!(vs.get("a"), Some([1.0, 2.0].as_slice()));
    assert_eq!(vs.raw_embeddings().len(), 2);
}

#[test]
fn remove_all_entries_one_by_one() {
    let mut vs = VectorStorage::<f32>::new(2);
    vs.insert("a", &[1.0, 2.0]);
    vs.insert("b", &[3.0, 4.0]);
    vs.insert("c", &[5.0, 6.0]);

    assert!(vs.remove("b"));
    assert!(vs.remove("a"));
    assert!(vs.remove("c"));

    assert!(vs.is_empty());
    assert_eq!(vs.len(), 0);
    assert!(vs.raw_embeddings().is_empty());
}


#[test]
fn contains_present_and_absent() {
    let mut vs = VectorStorage::<f32>::new(2);
    vs.insert("a", &[1.0, 2.0]);

    assert!(vs.contains("a"));
    assert!(!vs.contains("b"));
}


#[test]
fn iter_all_entries() {
    let mut vs = VectorStorage::<f32>::new(2);
    vs.insert("a", &[1.0, 2.0]);
    vs.insert("b", &[3.0, 4.0]);

    let mut entries: Vec<_> = vs.iter().into_iter().map(|(id, e)| (id.to_owned(), e.to_vec())).collect();
    entries.sort_by(|a, b| a.0.cmp(&b.0));

    assert_eq!(entries.len(), 2);
    assert_eq!(entries[0], ("a".to_owned(), vec![1.0, 2.0]));
    assert_eq!(entries[1], ("b".to_owned(), vec![3.0, 4.0]));
}

#[test]
fn iter_empty_storage() {
    let vs = VectorStorage::<f32>::new(4);
    assert_eq!(vs.iter().into_iter().count(), 0);
}


#[test]
fn clear_removes_everything() {
    let mut vs = VectorStorage::<f32>::new(2);
    vs.insert("a", &[1.0, 2.0]);
    vs.insert("b", &[3.0, 4.0]);

    vs.clear();

    assert!(vs.is_empty());
    assert_eq!(vs.len(), 0);
    assert!(vs.raw_embeddings().is_empty());
    assert_eq!(vs.get("a"), None);
    assert_eq!(vs.get("b"), None);
}


#[test]
fn contiguous_layout_after_inserts() {
    let mut vs = VectorStorage::<f32>::new(3);
    vs.insert("a", &[1.0, 2.0, 3.0]);
    vs.insert("b", &[4.0, 5.0, 6.0]);

    let raw = vs.raw_embeddings();
    assert_eq!(raw.len(), 6);

    // The order must match insertion order.
    assert_eq!(&raw[0..3], &[1.0, 2.0, 3.0]);
    assert_eq!(&raw[3..6], &[4.0, 5.0, 6.0]);
}

#[test]
fn contiguous_layout_after_remove() {
    let mut vs = VectorStorage::<f32>::new(2);
    vs.insert("a", &[1.0, 2.0]);
    vs.insert("b", &[3.0, 4.0]);
    vs.insert("c", &[5.0, 6.0]);

    vs.remove("a"); // "c" swaps to slot 0

    let raw = vs.raw_embeddings();
    assert_eq!(raw.len(), 4); // exactly 2 entries * 2 dims

    // After swap-remove of "a": slot 0 = former "c", slot 1 = "b" unchanged.
    assert_eq!(vs.get("c"), Some([5.0, 6.0].as_slice()));
    assert_eq!(vs.get("b"), Some([3.0, 4.0].as_slice()));
}


#[test]
fn empty_storage_properties() {
    let vs = VectorStorage::<f32>::new(5);

    assert!(vs.is_empty());
    assert_eq!(vs.len(), 0);
    assert_eq!(vs.dimensions(), 5);
    assert!(vs.raw_embeddings().is_empty());
    assert_eq!(vs.get("anything"), None);
    assert!(!vs.contains("anything"));
}

#[test]
fn clear_on_empty_is_noop() {
    let mut vs = VectorStorage::<f32>::new(3);
    vs.clear();
    assert!(vs.is_empty());
}

#[test]
fn remove_from_empty_returns_false() {
    let mut vs = VectorStorage::<f32>::new(2);
    assert!(!vs.remove("x"));
}


#[test]
fn dimensions_accessor() {
    let vs = VectorStorage::<f32>::new(128);
    assert_eq!(vs.dimensions(), 128);
}

#[test]
fn swap_remove_moves_last_entry_into_the_slot() {
    let mut vs = VectorStorage::<f32>::new(2);
    vs.insert("a", &[1.0, 2.0]);
    vs.insert("b", &[3.0, 4.0]);
    vs.insert("c", &[5.0, 6.0]);
    assert!(vs.remove("a"));
    assert_eq!(vs.raw_embeddings(), &[5.0, 6.0, 3.0, 4.0]);
    let ids: Vec<&str> = vs.iter().into_iter().map(|(id, _)| id).collect();
    assert_eq!(ids, vec!["c", "b"]);
}

#[test]
fn overwrite_keeps_slot_and_order() {
    let mut vs = VectorStorage::<u8>::new(2);
    vs.insert("a", &[1, 2]);
    vs.insert("b", &[3, 4]);
    vs.insert("a", &[9, 9]);
    assert_eq!(vs.raw_embeddings(), &[9, 9, 3, 4]);
    assert_eq!(vs.get("a"), Some([9u8, 9].as_slice()));
    assert_eq!(vs.get("b"), Some([3u8, 4].as_slice()));
}

#[test]
fn removed_id_is_gone_and_others_stay() {
    let mut vs = VectorStorage::<i32>::new(1);
    vs.insert_batch(&[("x", &[1]), ("y", &[2]), ("z", &[3])]);
    assert!(vs.remove("y"));
    assert!(!vs.remove("y"));
    assert_eq!(vs.get("y"), None);
    assert_eq!(vs.get("x"), Some([1].as_slice()));
    assert_eq!(vs.get("z"), Some([3].as_slice()));
    vs.insert("y", &[7]);
    assert_eq!(vs.raw_embeddings(), &[1, 3, 7]);
}
