use eucalyptus::stats::{samples_memory, BoundedHistory};

#[test]
fn history_keeps_newest_samples() {
    let mut h: BoundedHistory<u32> = BoundedHistory::new(3);
    for i in 0..5 {
        h.push_back(i);
    }
    assert_eq!(h.len(), 3);
    assert_eq!(h.samples().iter().copied().collect::<Vec<_>>(), vec![2, 3, 4]);
    h.clear();
    assert_eq!(h.len(), 0);
    h.push_back(9);
    assert_eq!(h.samples().iter().copied().collect::<Vec<_>>(), vec![9]);
}

#[test]
fn history_under_capacity_keeps_all() {
    let mut h: BoundedHistory<u8> = BoundedHistory::new(10);
    h.push_back(1);
    h.push_back(2);
    assert_eq!(h.samples().iter().copied().collect::<Vec<_>>(), vec![1, 2]);
}

#[test]
fn memory_sampled_every_thirtieth_frame() {
    assert!(samples_memory(0));
    assert!(samples_memory(30));
    assert!(samples_memory(90));
    assert!(!samples_memory(31));
    assert!(!samples_memory(29));
}

#[test]
fn history_of_capacity_zero_keeps_nothing() {
    let mut h: BoundedHistory<u8> = BoundedHistory::new(0);
    h.push_back(1);
    assert_eq!(h.len(), 0);
}
