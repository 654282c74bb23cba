use assets::cache::Cache;
use assets::key::{AssetSpec, StoreId};
use std::rc::Rc;

fn spec(name: &str, ext: &'static str, store: u64) -> AssetSpec {
    AssetSpec::new(name.to_string(), ext, StoreId(store))
}

#[test]
fn new_cache_holds_nothing() {
    let cache: Cache<u32> = Cache::new();
    assert_eq!(cache.get(&spec("cube", "obj", 1)), None);
}

#[test]
fn default_cache_holds_nothing() {
    let cache: Cache<u32> = Default::default();
    assert_eq!(cache.get(&spec("cube", "obj", 1)), None);
    assert_eq!(cache.insert(spec("cube", "obj", 1), 1), None);
}

#[test]
fn insert_then_get() {
    let cache = Cache::new();
    let k = spec("cube", "obj", 1);
    assert_eq!(cache.insert(k.clone(), "mesh".to_string()), None);
    assert_eq!(cache.get(&k), Some("mesh".to_string()));
}

#[test]
fn insert_through_a_shared_reference() {
    let cache = Cache::new();
    let shared: &Cache<u32> = &cache;
    let again: &Cache<u32> = &cache;
    shared.insert(spec("cube", "obj", 1), 5);
    assert_eq!(again.get(&spec("cube", "obj", 1)), Some(5));
}

#[test]
fn overwrite_returns_the_first_value() {
    let cache = Cache::new();
    let k = spec("cube", "obj", 1);
    assert_eq!(cache.insert(k.clone(), 1u32), None);
    assert_eq!(cache.insert(k.clone(), 2u32), Some(1));
    assert_eq!(cache.get(&k), Some(2));
}

#[test]
fn retain_keeps_only_the_matching_entry() {
    let cache = Cache::new();
    let k1 = spec("cube", "obj", 1);
    let k2 = spec("cone", "obj", 1);
    cache.insert(k1.clone(), 10u32);
    cache.insert(k2.clone(), 20u32);
    cache.retain(|k, _| *k == k1);
    assert_eq!(cache.get(&k1), Some(10));
    assert_eq!(cache.get(&k2), None);
}

#[test]
fn retain_can_change_values_before_it_decides() {
    let cache = Cache::new();
    cache.insert(spec("a", "bin", 1), 1u32);
    cache.insert(spec("b", "bin", 1), 2u32);
    cache.retain(|_, v| {
        *v *= 10;
        *v >= 20
    });
    assert_eq!(cache.get(&spec("a", "bin", 1)), None);
    assert_eq!(cache.get(&spec("b", "bin", 1)), Some(20));
}

#[test]
fn retain_drops_assets_nobody_else_holds() {
    let cache = Cache::new();
    let held = Rc::new(1u32);
    cache.insert(spec("held", "bin", 1), held.clone());
    cache.insert(spec("free", "bin", 1), Rc::new(2u32));
    cache.retain(|_, v| Rc::strong_count(v) > 1);
    assert_eq!(cache.get(&spec("held", "bin", 1)), Some(Rc::new(1u32)));
    assert_eq!(cache.get(&spec("free", "bin", 1)), None);
}

#[test]
fn clear_all_leaves_nothing() {
    let cache = Cache::new();
    let keys = vec![spec("cube", "obj", 1), spec("cone", "obj", 1), spec("cube", "png", 2)];
    for (n, k) in keys.iter().enumerate() {
        cache.insert(k.clone(), n);
    }
    cache.clear_all();
    for k in &keys {
        assert_eq!(cache.get(k), None);
    }
}

#[test]
fn clear_all_on_an_empty_cache() {
    let cache: Cache<u32> = Cache::new();
    cache.clear_all();
    assert_eq!(cache.get(&spec("cube", "obj", 1)), None);
}

#[test]
fn get_hands_out_a_copy() {
    let cache = Cache::new();
    let k = spec("cube", "obj", 1);
    cache.insert(k.clone(), vec![1u8]);
    let mut copy = cache.get(&k).unwrap();
    copy.push(2);
    assert_eq!(cache.get(&k), Some(vec![1u8]));
}

#[test]
fn repeated_reads_agree() {
    let cache = Cache::new();
    let k = spec("cube", "obj", 1);
    cache.insert(k.clone(), 7u32);
    for _ in 0..100 {
        assert_eq!(cache.get(&k), Some(7));
    }
}

#[test]
fn caches_are_independent() {
    let meshes = Cache::new();
    let sounds = Cache::new();
    let k = spec("cube", "obj", 1);
    meshes.insert(k.clone(), 1u32);
    assert_eq!(sounds.get(&k), None);
    sounds.insert(k.clone(), 2u32);
    meshes.clear_all();
    assert_eq!(sounds.get(&k), Some(2));
}

#[test]
fn the_lock_is_free_after_each_call() {
    let cache = Cache::new();
    let k = spec("cube", "obj", 1);
    cache.insert(k.clone(), 1u32);
    cache.retain(|_, _| true);
    cache.clear_all();
    cache.insert(k.clone(), 2u32);
    assert_eq!(cache.get(&k), Some(2));
}
