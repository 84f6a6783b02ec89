use sami_bridge::cache::ResultCache;

#[test]
fn cached_value_is_reused_within_ttl() {
    let mut cache: ResultCache<u32> = ResultCache::new(10);
    assert_eq!(cache.lookup("tok", 0), None);
    cache.store("tok".to_string(), 7, 100);
    assert_eq!(cache.lookup("tok", 100), Some(&7));
    assert_eq!(cache.lookup("tok", 109), Some(&7));
}

#[test]
fn cached_value_expires_after_ttl() {
    let mut cache: ResultCache<u32> = ResultCache::new(10);
    cache.store("tok".to_string(), 7, 100);
    assert_eq!(cache.lookup("tok", 110), None);
    cache.store("tok".to_string(), 8, 110);
    assert_eq!(cache.lookup("tok", 111), Some(&8));
    assert_eq!(cache.entries.len(), 1);
}

#[test]
fn keys_do_not_collide() {
    let mut cache: ResultCache<u32> = ResultCache::new(10);
    cache.store("a".to_string(), 1, 0);
    cache.store("b".to_string(), 2, 0);
    assert_eq!(cache.lookup("a", 5), Some(&1));
    assert_eq!(cache.lookup("b", 5), Some(&2));
    assert_eq!(cache.lookup("c", 5), None);
}

#[test]
fn expiry_saturates() {
    let mut cache: ResultCache<u32> = ResultCache::new(u64::MAX);
    cache.store("a".to_string(), 1, 5);
    assert_eq!(cache.lookup("a", u64::MAX - 1), Some(&1));
}
