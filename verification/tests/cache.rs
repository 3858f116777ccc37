use troyonthetrails::cache::{Instant, ResponseCache, CACHE_TTL_SECS};

const SEC: u64 = 1_000_000_000;

#[test]
fn two_lookups_within_five_minutes_need_one_fetch_and_a_third_after_them_a_second() {
    let mut cache: ResponseCache<Vec<u32>> = ResponseCache::new();
    let mut fetches = 0;
    let mut read = |cache: &mut ResponseCache<Vec<u32>>, now: Instant| -> Vec<u32> {
        if let Some(hit) = cache.get(now) {
            return hit.clone();
        }
        fetches += 1;
        cache.put(vec![fetches], now).clone()
    };
    let t0 = Instant::from_nanos(17 * SEC);
    assert_eq!(read(&mut cache, t0), vec![1]);
    assert_eq!(read(&mut cache, Instant::from_nanos(17 * SEC + 299 * SEC + SEC - 1)), vec![1]);
    assert_eq!(read(&mut cache, Instant::from_nanos(17 * SEC + 300 * SEC)), vec![2]);
    assert_eq!(fetches, 2);
}

#[test]
fn an_empty_cache_misses() {
    let cache: ResponseCache<u8> = ResponseCache::new();
    assert!(cache.get(Instant::from_nanos(0)).is_none());
    assert!(cache.get(Instant::from_nanos(u64::MAX)).is_none());
}

#[test]
fn an_entry_from_the_future_counts_as_fresh() {
    let mut cache: ResponseCache<u8> = ResponseCache::new();
    assert_eq!(*cache.put(7, Instant::from_nanos(500 * SEC)), 7);
    assert_eq!(cache.get(Instant::from_nanos(0)), Some(&7));
}

#[test]
fn a_put_replaces_the_entry() {
    let mut cache: ResponseCache<u8> = ResponseCache::new();
    cache.put(1, Instant::from_nanos(0));
    cache.put(2, Instant::from_nanos(400 * SEC));
    assert_eq!(cache.get(Instant::from_nanos(401 * SEC)), Some(&2));
    assert_eq!(cache.get(Instant::from_nanos(700 * SEC)), None);
}

#[test]
fn elapsed_seconds_are_whole_and_never_negative() {
    let early = Instant::from_nanos(3 * SEC + 1);
    let late = Instant::from_nanos(5 * SEC);
    assert_eq!(late.secs_since(&early), 1);
    assert_eq!(early.secs_since(&late), 0);
    assert_eq!(late.secs_since(&late), 0);
    assert_eq!(late.as_nanos(), 5 * SEC);
    assert_eq!(CACHE_TTL_SECS, 300);
}
