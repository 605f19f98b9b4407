use gpu_charts::instance_manager::InstanceManager;

#[test]
fn instances_are_kept_by_id() {
    let mut m: InstanceManager<String> = InstanceManager::new();
    assert_eq!(m.instance_count(), 0);
    let a = m.create_instance("chart A".to_string());
    let b = m.create_instance("chart B".to_string());
    assert_ne!(a, b);
    assert_eq!(m.instance_count(), 2);
    assert!(m.instance_exists(a));
    assert_eq!(m.with_instance(a, |s| s.len()), Some(7));

    let taken = m.take_instance(a).unwrap();
    assert_eq!(taken, "chart A");
    assert!(!m.instance_exists(a));
    m.put_instance(a, taken);
    assert!(m.instance_exists(a));

    assert_eq!(m.remove_instance(b), Some("chart B".to_string()));
    assert_eq!(m.remove_instance(b), None);
    m.clear_all();
    assert_eq!(m.instance_count(), 0);
}

#[test]
fn put_and_take_move_the_count_by_one() {
    let mut m: InstanceManager<u32> = InstanceManager::new();
    m.put_instance(1, 10);
    m.put_instance(2, 20);
    let n = m.instance_count();
    assert!(!m.instance_exists(3));
    m.put_instance(3, 30);
    assert_eq!(m.instance_count(), n + 1);
    assert!(m.instance_exists(3));
    assert_eq!(m.with_instance(3, |v| *v), Some(30));
    assert_eq!(m.instance_count(), n + 1);
    assert_eq!(m.take_instance(3), Some(30));
    assert_eq!(m.instance_count(), n);
    assert!(!m.instance_exists(3));
}

#[test]
fn created_ids_are_version_four() {
    let mut m: InstanceManager<u8> = InstanceManager::new();
    for i in 0..8u8 {
        let id = m.create_instance(i);
        assert_eq!(id & 0xF000_C000_0000_0000_0000u128, 0x4000_8000_0000_0000_0000u128);
    }
    assert_eq!(m.instance_count(), 8);
}
