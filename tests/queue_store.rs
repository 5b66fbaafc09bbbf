use tunequeue::queue::QueueStore;

fn sorted(mut v: Vec<u32>) -> Vec<u32> {
    v.sort();
    v
}

#[test]
fn pop_next_on_empty_queue_returns_none() {
    let mut q: QueueStore<u32> = QueueStore::new();
    assert_eq!(q.pop_next(), None);
    assert_eq!(q.pop_next(), None);
    assert_eq!(q.len(), 0);
    assert!(q.is_empty());
}

#[test]
fn replace_then_pop_returns_first_in_given_order() {
    let mut q = QueueStore::new();
    q.append(vec![9, 8]);
    q.replace(vec![1, 2, 3]);
    assert_eq!(q.pop_next(), Some(1));
    assert_eq!(q.snapshot(), &[2, 3]);
    assert_eq!(q.pop_next(), Some(2));
    assert_eq!(q.pop_next(), Some(3));
    assert_eq!(q.pop_next(), None);
}

#[test]
fn append_keeps_playback_order() {
    let mut q = QueueStore::new();
    q.append(vec![1, 2]);
    q.append(vec![3]);
    assert_eq!(q.snapshot(), &[1, 2, 3]);
    assert_eq!(q.len(), 3);
    q.clear();
    assert!(q.is_empty());
}

#[test]
fn shuffle_keeps_every_item() {
    let mut q = QueueStore::new();
    let items: Vec<u32> = (0..50).collect();
    q.replace(items.clone());
    let before = q.snapshot().to_vec();
    q.shuffle();
    let after = q.snapshot().to_vec();
    assert_eq!(after.len(), before.len());
    assert_eq!(sorted(after), sorted(before));
}

#[test]
fn shuffle_keeps_duplicates() {
    let mut q = QueueStore::new();
    q.replace(vec![7, 7, 1, 7, 2]);
    q.shuffle();
    assert_eq!(sorted(q.snapshot().to_vec()), vec![1, 2, 7, 7, 7]);
}

#[test]
fn mixed_operations_lose_and_duplicate_nothing() {
    let mut q = QueueStore::new();
    let mut popped = Vec::new();
    q.append(vec![1, 2, 3]);
    popped.push(q.pop_next().unwrap());
    q.shuffle();
    q.append(vec![4, 5]);
    popped.push(q.pop_next().unwrap());
    q.shuffle();
    popped.push(q.pop_next().unwrap());
    let mut all = popped.clone();
    all.extend_from_slice(q.snapshot());
    assert_eq!(sorted(all), vec![1, 2, 3, 4, 5]);
    q.replace(vec![6]);
    assert_eq!(q.snapshot(), &[6]);
}
