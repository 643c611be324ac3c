use eigenda_client::cache::ResponseCache;
use eigenda_client::response::BlobResponse;
use eigenda_client::status::BlobResult;

fn response(result: BlobResult, id: &str) -> BlobResponse {
    BlobResponse::new(result, id.to_string())
}

#[test]
fn caching_twice_keeps_one_entry() {
    let mut cache = ResponseCache::new(4);
    let r = response(BlobResult::Processing, "req-1");
    cache.cache(&r);
    cache.cache(&r);
    assert_eq!(cache.len(), 1);
    assert_eq!(cache.get("req-1"), Some(&r));
}

#[test]
fn same_request_id_overwrites() {
    let mut cache = ResponseCache::new(4);
    cache.cache(&response(BlobResult::Processing, "req-1"));
    cache.cache(&response(BlobResult::Confirmed, "req-1"));
    assert_eq!(cache.len(), 1);
    assert_eq!(cache.get("req-1").unwrap().result(), &BlobResult::Confirmed);
}

#[test]
fn least_recently_cached_is_evicted() {
    let mut cache = ResponseCache::new(2);
    cache.cache(&response(BlobResult::Processing, "a"));
    cache.cache(&response(BlobResult::Processing, "b"));
    cache.cache(&response(BlobResult::Processing, "a"));
    cache.cache(&response(BlobResult::Processing, "c"));
    assert_eq!(cache.len(), 2);
    assert!(cache.get("b").is_none());
    assert!(cache.get("a").is_some());
    assert!(cache.get("c").is_some());
    assert_eq!(cache.capacity(), 2);
}

#[test]
fn capacity_one_keeps_the_latest() {
    let mut cache = ResponseCache::new(1);
    cache.cache(&response(BlobResult::Processing, "a"));
    cache.cache(&response(BlobResult::Processing, "b"));
    assert_eq!(cache.len(), 1);
    assert!(cache.get("a").is_none());
    assert_eq!(cache.get("b").unwrap().request_id(), "b");
}
