use eucalyptus::batch::batch_by_model;

#[test]
fn batches_group_by_model_keeping_instance_order() {
    let items = vec![(7u64, 'a'), (3, 'b'), (7, 'c'), (9, 'd'), (3, 'e')];
    let b = batch_by_model(items);
    assert_eq!(b.len(), 3);
    assert_eq!(b[&7], vec!['a', 'c']);
    assert_eq!(b[&3], vec!['b', 'e']);
    assert_eq!(b[&9], vec!['d']);
}

#[test]
fn batches_of_nothing() {
    let items: Vec<(u64, u8)> = Vec::new();
    assert!(batch_by_model(items).is_empty());
}

#[test]
fn batches_keep_every_instance() {
    let items: Vec<(u64, u32)> = (0..20).map(|i| ((i % 4) as u64, i)).collect();
    let b = batch_by_model(items);
    assert_eq!(b.len(), 4);
    let total: usize = b.values().map(|xs| xs.len()).sum();
    assert_eq!(total, 20);
    assert_eq!(b[&1], vec![1, 5, 9, 13, 17]);
    assert!(!b.contains_key(&4));
}
