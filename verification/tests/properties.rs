use eucalyptus::properties::{ModelProperties, PropertyError};

fn keys(p: &ModelProperties<i32>) -> Vec<String> {
    p.custom_properties.iter().map(|x| x.key.clone()).collect()
}

#[test]
fn add_picks_first_free_key() {
    let mut p: ModelProperties<i32> = ModelProperties::new();
    assert_eq!(p.add(1), 0);
    assert_eq!(p.add(2), 1);
    assert_eq!(p.add(3), 2);
    assert_eq!(keys(&p), vec!["new_property", "new_property_1", "new_property_2"]);
    assert_eq!(p.next_id, 3);
    assert_eq!(p.custom_properties[2].value, 3);
}

#[test]
fn add_fills_a_gap() {
    let mut p: ModelProperties<i32> = ModelProperties::new();
    p.add(0);
    p.add(0);
    p.add(0);
    p.delete(1);
    assert_eq!(keys(&p), vec!["new_property", "new_property_2"]);
    let id = p.add(9);
    assert_eq!(id, 3);
    assert_eq!(keys(&p), vec!["new_property", "new_property_2", "new_property_1"]);
}

#[test]
fn rename_unknown_id_fails() {
    let mut p: ModelProperties<i32> = ModelProperties::new();
    p.add(0);
    assert_eq!(p.rename(7, "x".to_string()), Err(PropertyError::IdNotFound));
    assert_eq!(p.rename(0, "speed".to_string()), Ok(()));
    assert_eq!(keys(&p), vec!["speed"]);
    p.add(0);
    assert_eq!(keys(&p), vec!["speed", "new_property"]);
}

#[test]
fn delete_removes_only_that_id() {
    let mut p: ModelProperties<i32> = ModelProperties::new();
    p.add(10);
    p.add(20);
    p.delete(0);
    assert_eq!(p.custom_properties.len(), 1);
    assert_eq!(p.custom_properties[0].value, 20);
    p.delete(42);
    assert_eq!(p.custom_properties.len(), 1);
}

#[test]
fn fresh_key_skips_taken_numbers() {
    let mut p: ModelProperties<i32> = ModelProperties::new();
    for _ in 0..12 {
        p.add(0);
    }
    assert_eq!(p.fresh_key(), "new_property_12");
    assert!(p.has_key("new_property_11"));
    assert!(!p.has_key("new_property_12"));
}

#[test]
fn property_ids_are_never_reused() {
    let mut p: ModelProperties<u8> = ModelProperties::new();
    let a = p.add(1);
    let b = p.add(2);
    p.delete(b);
    let c = p.add(3);
    assert_ne!(c, a);
    assert_ne!(c, b);
    let ids: Vec<u64> = p.custom_properties.iter().map(|x| x.id).collect();
    assert_eq!(ids, vec![0, 2]);
    assert!(ids.iter().all(|&i| i < p.next_id));
}
