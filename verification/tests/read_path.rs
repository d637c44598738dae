use caching_client::CachedEntry;
use caching_client::CachingClient;
use caching_client::ClientError;
use freedom_config::Config;
use freedom_config::Test;

fn test_config() -> Config {
    Config::new(Test, "my_key", "my_secret")
}

#[test]
fn miss_then_hit_serves_identical() {
    let mut client = CachingClient::new(test_config(), 64);
    let id = String::from("https://api.example.com/tasks/1");
    assert!(client.begin_read(&id).is_none());
    let fetched = CachedEntry::new(vec![1u8, 2, 3], 200);
    let served = client.finish_read(&id, Ok(fetched)).unwrap();
    assert_eq!(served.payload, vec![1u8, 2, 3]);
    assert_eq!(served.status, 200);
    // The second read is a hit: byte-identical, and no upstream outcome is
    // ever handed in.
    let hit = client.begin_read(&id).expect("second read should be a hit");
    assert_eq!(hit.payload, vec![1u8, 2, 3]);
    assert_eq!(hit.status, 200);
}

#[test]
fn failure_leaves_no_trace_and_retries() {
    let mut client = CachingClient::new(test_config(), 64);
    let id = String::from("https://api.example.com/flaky");
    assert!(client.begin_read(&id).is_none());
    let err = client
        .finish_read(&id, Err(ClientError::Transport))
        .unwrap_err();
    assert_eq!(err, ClientError::Transport);
    // The failure was not cached: the next read misses and goes upstream
    // again, and this time the fetched entry is served and retained.
    assert!(client.begin_read(&id).is_none());
    let recovered = client
        .finish_read(&id, Ok(CachedEntry::new(vec![9u8], 200)))
        .unwrap();
    assert_eq!(recovered.payload, vec![9u8]);
    let hit = client.begin_read(&id).expect("retry should have filled the cache");
    assert_eq!(hit.payload, vec![9u8]);
    assert_eq!(hit.status, 200);
}

#[test]
fn serialization_error_passes_through() {
    let mut client = CachingClient::new(test_config(), 64);
    let id = String::from("https://api.example.com/report");
    assert!(client.begin_read(&id).is_none());
    let err = client
        .finish_read(&id, Err(ClientError::Serialization))
        .unwrap_err();
    assert_eq!(err, ClientError::Serialization);
    assert!(client.begin_read(&id).is_none());
}

#[test]
fn error_status_is_cached_and_served() {
    let mut client = CachingClient::new(test_config(), 64);
    let id = String::from("https://api.example.com/missing");
    assert!(client.begin_read(&id).is_none());
    let fetched = CachedEntry::new(b"not found".to_vec(), 404);
    let served = client.finish_read(&id, Ok(fetched)).unwrap();
    assert_eq!(served.status, 404);
    // Caching is status-agnostic: the 404 is a reusable result, served as a
    // hit without a second upstream call.
    let hit = client.begin_read(&id).expect("cached 404 should be a hit");
    assert_eq!(hit.status, 404);
    assert_eq!(hit.payload, b"not found".to_vec());
}

#[test]
fn delete_and_post_leave_cache_entries() {
    let mut client = CachingClient::new(test_config(), 64);
    let id = String::from("https://api.example.com/tasks/2");
    assert!(client.begin_read(&id).is_none());
    client
        .finish_read(&id, Ok(CachedEntry::new(vec![5u8, 6], 200)))
        .unwrap();
    let forwarded = client.delete(id.clone());
    assert_eq!(forwarded, id);
    let (to, msg) = client.post(id.clone(), String::from("updated body"));
    assert_eq!(to, id);
    assert_eq!(msg, "updated body");
    // Neither operation created, changed or removed the cached entry.
    let hit = client.begin_read(&id).expect("entry should still be cached");
    assert_eq!(hit.payload, vec![5u8, 6]);
    assert_eq!(hit.status, 200);
}

#[test]
fn overlapping_misses_last_fill_wins() {
    let mut client = CachingClient::new(test_config(), 64);
    let id = String::from("https://api.example.com/hot");
    // Two readers race on the same uncached identifier: both miss, both go
    // upstream. Each gets its own valid (payload, status) pair back, and the
    // last fill is the entry served afterwards — never a blend of the two.
    assert!(client.begin_read(&id).is_none());
    assert!(client.begin_read(&id).is_none());
    let first = client
        .finish_read(&id, Ok(CachedEntry::new(vec![1u8], 200)))
        .unwrap();
    assert_eq!(first.payload, vec![1u8]);
    assert_eq!(first.status, 200);
    let second = client
        .finish_read(&id, Ok(CachedEntry::new(vec![2u8], 200)))
        .unwrap();
    assert_eq!(second.payload, vec![2u8]);
    assert_eq!(second.status, 200);
    let hit = client.begin_read(&id).expect("last fill should be cached");
    assert_eq!(hit.payload, vec![2u8]);
    assert_eq!(hit.status, 200);
}

#[test]
fn config_accessors_do_not_touch_cache() {
    let mut client = CachingClient::new(test_config(), 64);
    let id = String::from("https://api.example.com/tasks/3");
    assert!(client.begin_read(&id).is_none());
    client
        .finish_read(&id, Ok(CachedEntry::new(vec![8u8], 200)))
        .unwrap();
    assert_eq!(client.config().key(), "my_key");
    client.config_mut().set_key("rotated_key");
    assert_eq!(client.config().key(), "rotated_key");
    let hit = client.begin_read(&id).expect("entry should still be cached");
    assert_eq!(hit.payload, vec![8u8]);
}

#[test]
fn empty_payload_round_trips() {
    let mut client = CachingClient::new(test_config(), 64);
    let id = String::from("https://api.example.com/empty");
    assert!(client.begin_read(&id).is_none());
    let served = client
        .finish_read(&id, Ok(CachedEntry::new(Vec::new(), 204)))
        .unwrap();
    assert!(served.payload.is_empty());
    assert_eq!(served.status, 204);
    let hit = client.begin_read(&id).expect("empty entry should be a hit");
    assert!(hit.payload.is_empty());
    assert_eq!(hit.status, 204);
}

#[test]
fn zero_capacity_still_answers_consistently() {
    // A store bounded at zero may retain nothing; the caller still receives
    // its fetched entry, and any hit that does occur is the genuine entry.
    let mut client = CachingClient::new(test_config(), 0);
    let id = String::from("https://api.example.com/tiny");
    assert!(client.begin_read(&id).is_none());
    let served = client
        .finish_read(&id, Ok(CachedEntry::new(vec![3u8], 200)))
        .unwrap();
    assert_eq!(served.payload, vec![3u8]);
    if let Some(hit) = client.begin_read(&id) {
        assert_eq!(hit.payload, vec![3u8]);
        assert_eq!(hit.status, 200);
    }
}
