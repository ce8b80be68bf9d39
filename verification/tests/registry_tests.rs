use taokt::{App, Platform, WindowRegistry};

#[test]
fn registry_numbers_ids_in_order_of_first_sight() {
    let (a, b, c) = (0xA000_u64, 0xB000_u64, 0xC000_u64);
    let mut registry = WindowRegistry::new();
    assert_eq!(registry.resolve(a), 1);
    assert_eq!(registry.resolve(b), 2);
    assert_eq!(registry.resolve(a), 1);
    assert_eq!(registry.resolve(c), 3);
}

#[test]
fn registry_starts_at_one() {
    let mut registry = WindowRegistry::new();
    assert_eq!(registry.resolve(0), 1);
    assert_eq!(registry.resolve(u64::MAX), 2);
}

#[test]
fn registry_answers_are_stable() {
    let mut registry = WindowRegistry::new();
    let natives = [7_u64, 3, 7, 7, 9, 3, 1, 9];
    let mut first = Vec::new();
    for native in natives {
        first.push(registry.resolve(native));
    }
    for (index, native) in natives.iter().enumerate() {
        assert_eq!(registry.resolve(*native), first[index]);
    }
    assert_eq!(first, vec![1, 2, 1, 1, 3, 2, 4, 3]);
}

#[test]
fn registry_never_gives_one_id_to_two_windows() {
    let mut registry = WindowRegistry::new();
    let mut seen = Vec::new();
    for native in 100_u64..200 {
        let id = registry.resolve(native);
        assert!(!seen.contains(&id));
        seen.push(id);
    }
    for (index, id) in seen.iter().enumerate() {
        assert_eq!(*id, index as u64 + 1);
    }
}

#[test]
fn app_maps_window_ids_through_its_registry() {
    let mut app = App::new(Platform::Linux);
    assert_eq!(app.map_window_id(41), 1);
    assert_eq!(app.map_window_id(42), 2);
    assert_eq!(app.map_window_id(41), 1);
    assert_eq!(app.map_window_id(43), 3);
}
