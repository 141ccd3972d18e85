use std::collections::HashMap;

use dinkelberg::cache::{Cache, DEFAULT_TTL};
use dinkelberg::keys::{plain_key, scoped_key};
use dinkelberg::protocol::{CacheErrorKind, Outcome, Step};
use dinkelberg::stats::Stats;
use dinkelberg::status::{health_message, CacheStatus};
use dinkelberg::wire::Request;

const ENDPOINT: &str = "redis://127.0.0.1/";

/// A key-value store in memory, with what a test wants to go wrong.
struct World {
    entries: HashMap<String, Vec<u8>>,
    reachable: bool,
    failing: bool,
    connections: usize,
    requests: Vec<Request>,
}

fn world() -> World {
    World { entries: HashMap::new(), reachable: true, failing: false, connections: 0, requests: vec![] }
}

fn decodes<T: serde::de::DeserializeOwned>(payload: &[u8]) -> bool {
    serde_json::from_slice::<T>(payload).is_ok()
}

/// Performs every effect that the steps name, until the operation is over.
fn drive(first: Step, world: &mut World, stats: &mut Stats, encoded: Option<Vec<u8>>, accepts: fn(&[u8]) -> bool) -> Outcome {
    let mut step = first;
    loop {
        step = match step {
            Step::Encode(state) => state.on_encoded(encoded.clone()),
            Step::Connect(state) => {
                world.connections += 1;
                state.on_connection(world.reachable, stats)
            }
            Step::Read(state) => {
                let request = state.request();
                world.requests.push(request.clone());
                let reply = match (&request, world.failing) {
                    (Request::Get { key }, false) => Some(world.entries.get(key).cloned().unwrap_or_default()),
                    _ => None,
                };
                state.on_reply(reply, stats)
            }
            Step::Write(state) => {
                world.requests.push(state.request().clone());
                if !world.failing {
                    match state.request() {
                        Request::SetEx { key, value, .. } | Request::Persist { key, value } => {
                            world.entries.insert(key.clone(), value.clone());
                        }
                        Request::Del { key } => {
                            world.entries.remove(key);
                        }
                        Request::Get { .. } => unreachable!(),
                    }
                }
                state.on_reply(!world.failing)
            }
            Step::Decode(state) => {
                let accepted = accepts(state.payload());
                state.on_decoded(accepted, stats)
            }
            Step::Done(outcome) => return outcome,
        };
    }
}

fn json<T: serde::Serialize>(value: &T) -> Option<Vec<u8>> {
    serde_json::to_vec(value).ok()
}

#[test]
fn default_cache_is_disabled_with_twelve_hours_to_live() {
    let cache = Cache::default();
    assert!(!cache.is_enabled());
    assert!(cache.pool().is_none());
    assert_eq!(cache.ttl(), 43200);
    assert_eq!(DEFAULT_TTL, 3600 * 12);
}

#[test]
fn cache_without_endpoint_is_disabled() {
    let cache = Cache::new(None);
    assert!(!cache.is_enabled());
    assert!(cache.pool().is_none());
    assert_eq!(cache.ttl(), 43200);
}

#[test]
fn cache_with_endpoint_is_enabled() {
    let cache = Cache::new(Some(ENDPOINT));
    assert!(cache.is_enabled());
    assert!(cache.pool().is_some());
    assert_eq!(cache.ttl(), 43200);
    assert!(Cache::new(Some("redis://:secret@cache.example.com:6380/3")).is_enabled());
}

#[test]
fn cache_with_malformed_endpoint_is_disabled() {
    assert!(!Cache::new(Some("")).is_enabled());
    assert!(!Cache::new(Some("not a url")).is_enabled());
    assert!(!Cache::new(Some("http://127.0.0.1/")).is_enabled());
    assert!(!Cache::new(Some("redis://127.0.0.1/not-a-number")).is_enabled());
    assert_eq!(Cache::new(Some("not a url")).ttl(), 43200);
}

#[test]
fn disable_drops_the_pool_and_enable_makes_one_again() {
    let mut cache = Cache::new(Some(ENDPOINT));
    assert!(cache.is_enabled());
    cache.disable_cache();
    assert!(!cache.is_enabled());
    assert!(cache.pool().is_none());
    assert_eq!(cache.ttl(), 43200);
    cache.disable_cache();
    assert!(!cache.is_enabled());
    cache.enable_cache(Some(ENDPOINT));
    assert!(cache.is_enabled());
    cache.enable_cache(Some(ENDPOINT));
    assert!(cache.is_enabled());
    cache.enable_cache(None);
    assert!(!cache.is_enabled());
    cache.enable_cache(Some("not a url"));
    assert!(!cache.is_enabled());
}

#[test]
fn setex_then_get_gives_the_value_back() {
    let cache = Cache::new(Some(ENDPOINT));
    let mut world = world();
    let mut stats = Stats::new();
    let written = drive(cache.setex("i32", "answer"), &mut world, &mut stats, json(&42), decodes::<i32>);
    assert_eq!(written, Outcome::Stored);
    assert_eq!((stats.hits(), stats.misses()), (0, 0));
    let read = drive(cache.get("i32", "answer", &mut stats), &mut world, &mut stats, None, decodes::<i32>);
    assert_eq!(read, Outcome::Hit { payload: b"42".to_vec() });
    assert_eq!((stats.hits(), stats.misses()), (1, 0));
    assert_eq!(
        world.requests,
        vec![
            Request::SetEx { key: String::from("i32.answer"), ttl: 43200, value: b"42".to_vec() },
            Request::Get { key: String::from("i32.answer") },
        ]
    );
    assert_eq!(world.connections, 2);
}

#[test]
fn get_of_unwritten_key_counts_one_miss() {
    let cache = Cache::new(Some(ENDPOINT));
    let mut world = world();
    let mut stats = Stats::new();
    let read = drive(cache.get("i32", "nothing", &mut stats), &mut world, &mut stats, None, decodes::<i32>);
    assert_eq!(read, Outcome::Degraded(CacheErrorKind::DecodeFailed));
    assert_eq!((stats.hits(), stats.misses()), (0, 1));
    let again = drive(cache.get("i32", "nothing", &mut stats), &mut world, &mut stats, None, decodes::<i32>);
    assert_eq!(again, Outcome::Degraded(CacheErrorKind::DecodeFailed));
    assert_eq!((stats.hits(), stats.misses()), (0, 2));
    assert!(world.entries.is_empty());
}

#[test]
fn disabled_cache_does_nothing() {
    let mut cache = Cache::new(Some(ENDPOINT));
    let mut world = world();
    let mut stats = Stats::new();
    drive(cache.setex("i32", "k"), &mut world, &mut stats, json(&1), decodes::<i32>);
    world.requests.clear();
    world.connections = 0;
    cache.disable_cache();
    let absent = Outcome::Degraded(CacheErrorKind::ConfigAbsent);
    assert_eq!(cache.get("i32", "k", &mut stats), Step::Done(Outcome::Degraded(CacheErrorKind::ConfigAbsent)));
    assert_eq!(drive(cache.get("i32", "k", &mut stats), &mut world, &mut stats, None, decodes::<i32>), absent);
    assert_eq!(drive(cache.get_scoped("1", "i32"), &mut world, &mut stats, None, decodes::<i32>), absent);
    assert_eq!(drive(cache.setex("i32", "k"), &mut world, &mut stats, json(&2), decodes::<i32>), absent);
    assert_eq!(drive(cache.setex("i32", "k"), &mut world, &mut stats, None, decodes::<i32>), absent);
    assert_eq!(drive(cache.set_scoped("1", "i32"), &mut world, &mut stats, json(&3), decodes::<i32>), absent);
    assert_eq!(drive(cache.delete(String::from("i32.k")), &mut world, &mut stats, None, decodes::<i32>), absent);
    assert_eq!(world.connections, 0);
    assert!(world.requests.is_empty());
    assert_eq!(world.entries.get("i32.k"), Some(&b"1".to_vec()));
    assert_eq!(world.entries.len(), 1);
    assert_eq!(stats.hits(), 0);
    assert_eq!(stats.misses(), 2);
}

#[test]
fn scopes_do_not_leak_into_each_other() {
    let cache = Cache::new(Some(ENDPOINT));
    let mut world = world();
    let mut stats = Stats::new();
    let a = String::from("first chat");
    let b = String::from("second chat");
    assert_eq!(drive(cache.set_scoped("1", "alloc::string::String"), &mut world, &mut stats, json(&a), decodes::<String>), Outcome::Stored);
    assert_eq!(drive(cache.set_scoped("2", "alloc::string::String"), &mut world, &mut stats, json(&b), decodes::<String>), Outcome::Stored);
    assert_eq!(
        drive(cache.get_scoped("1", "alloc::string::String"), &mut world, &mut stats, None, decodes::<String>),
        Outcome::Hit { payload: json(&a).unwrap() }
    );
    assert_eq!(
        drive(cache.get_scoped("2", "alloc::string::String"), &mut world, &mut stats, None, decodes::<String>),
        Outcome::Hit { payload: json(&b).unwrap() }
    );
    assert_eq!(
        drive(cache.get_scoped("3", "alloc::string::String"), &mut world, &mut stats, None, decodes::<String>),
        Outcome::Degraded(CacheErrorKind::DecodeFailed)
    );
    assert_eq!(world.entries.len(), 2);
    assert_eq!((stats.hits(), stats.misses()), (0, 0));
}

#[test]
fn scoped_entries_are_written_without_expiry() {
    let cache = Cache::new(Some(ENDPOINT));
    let mut world = world();
    let mut stats = Stats::new();
    drive(cache.set_scoped("7", "T"), &mut world, &mut stats, Some(b"[1]".to_vec()), decodes::<Vec<u8>>);
    assert_eq!(world.requests, vec![Request::Persist { key: String::from("scope.7.T"), value: b"[1]".to_vec() }]);
    world.requests.clear();
    drive(cache.get_scoped("7", "T"), &mut world, &mut stats, None, decodes::<Vec<u8>>);
    assert_eq!(world.requests, vec![Request::Get { key: scoped_key("7", "T") }]);
}

#[test]
fn scoped_and_plain_entries_are_apart() {
    let cache = Cache::new(Some(ENDPOINT));
    let mut world = world();
    let mut stats = Stats::new();
    drive(cache.setex("T", "7"), &mut world, &mut stats, json(&1), decodes::<i32>);
    drive(cache.set_scoped("7", "T"), &mut world, &mut stats, json(&2), decodes::<i32>);
    assert_eq!(world.entries.get(&plain_key("T", "7")), Some(&b"1".to_vec()));
    assert_eq!(world.entries.get(&scoped_key("7", "T")), Some(&b"2".to_vec()));
    assert_eq!(
        drive(cache.get("T", "7", &mut stats), &mut world, &mut stats, None, decodes::<i32>),
        Outcome::Hit { payload: b"1".to_vec() }
    );
    assert_eq!(
        drive(cache.get_scoped("7", "T"), &mut world, &mut stats, None, decodes::<i32>),
        Outcome::Hit { payload: b"2".to_vec() }
    );
}

#[test]
fn status_of_disabled_cache_is_not_healthy() {
    let cache = Cache::new(None);
    let mut world = world();
    let mut stats = Stats::new();
    let outcome = drive(cache.status(), &mut world, &mut stats, None, decodes::<i32>);
    assert_eq!(outcome, Outcome::Status(CacheStatus::new(false, false)));
    match outcome {
        Outcome::Status(status) => {
            assert!(!status.is_enabled());
            assert!(!status.is_healthy());
            assert_eq!(health_message(&status), "Cache: unhealthy");
        }
        _ => unreachable!(),
    }
    assert_eq!(world.connections, 0);
}

#[test]
fn status_of_unreachable_cache_is_enabled_and_unhealthy() {
    let cache = Cache::new(Some(ENDPOINT));
    let mut world = world();
    world.reachable = false;
    let mut stats = Stats::new();
    match drive(cache.status(), &mut world, &mut stats, None, decodes::<i32>) {
        Outcome::Status(status) => {
            assert!(status.is_enabled());
            assert!(!status.is_healthy());
            assert_eq!(health_message(&status), "Cache: unhealthy");
        }
        _ => unreachable!(),
    }
    assert_eq!(world.connections, 1);
    assert!(world.requests.is_empty());
    assert_eq!((stats.hits(), stats.misses()), (0, 0));
}

#[test]
fn status_of_reachable_cache_is_healthy() {
    let cache = Cache::new(Some(ENDPOINT));
    let mut world = world();
    let mut stats = Stats::new();
    match drive(cache.status(), &mut world, &mut stats, None, decodes::<i32>) {
        Outcome::Status(status) => {
            assert!(status.is_enabled());
            assert!(status.is_healthy());
            assert_eq!(health_message(&status), "Cache: healthy");
        }
        _ => unreachable!(),
    }
    assert_eq!(world.connections, 1);
    assert!(world.requests.is_empty());
}

#[test]
fn a_status_is_never_healthy_without_being_enabled() {
    let status = CacheStatus::new(false, true);
    assert!(!status.is_enabled());
    assert!(!status.is_healthy());
    assert_eq!(status, CacheStatus::new(false, false));
    assert!(CacheStatus::new(true, true).is_healthy());
    assert!(CacheStatus::new(true, true).is_enabled());
    assert!(!CacheStatus::new(true, false).is_healthy());
    assert!(CacheStatus::new(true, false).is_enabled());
}

#[test]
fn racing_writes_leave_one_of_the_values() {
    let cache = Cache::new(Some(ENDPOINT));
    let mut stats = Stats::new();
    for first_reaches_the_store_first in [true, false] {
        let mut world = world();
        // both callers have encoded and hold a connection before either writes
        let one = cache.setex("i32", "id");
        let two = cache.setex("i32", "id");
        let one = match one {
            Step::Encode(state) => state.on_encoded(json(&1)),
            _ => unreachable!(),
        };
        let two = match two {
            Step::Encode(state) => state.on_encoded(json(&2)),
            _ => unreachable!(),
        };
        let (early, late) = if first_reaches_the_store_first { (one, two) } else { (two, one) };
        assert_eq!(drive(early, &mut world, &mut stats, None, decodes::<i32>), Outcome::Stored);
        assert_eq!(drive(late, &mut world, &mut stats, None, decodes::<i32>), Outcome::Stored);
        let read = drive(cache.get("i32", "id", &mut stats), &mut world, &mut stats, None, decodes::<i32>);
        let last = if first_reaches_the_store_first { b"2".to_vec() } else { b"1".to_vec() };
        assert_eq!(read, Outcome::Hit { payload: last });
        assert!(read == Outcome::Hit { payload: b"1".to_vec() } || read == Outcome::Hit { payload: b"2".to_vec() });
    }
}

#[test]
fn scenario_endpoint_unset() {
    let cache = Cache::new(None);
    assert!(!cache.is_enabled());
    let mut world = world();
    let mut stats = Stats::new();
    let written = drive(cache.setex("i32", "k"), &mut world, &mut stats, json(&42), decodes::<i32>);
    assert_eq!(written, Outcome::Degraded(CacheErrorKind::ConfigAbsent));
    let read = drive(cache.get("i32", "k", &mut stats), &mut world, &mut stats, None, decodes::<i32>);
    assert_eq!(read, Outcome::Degraded(CacheErrorKind::ConfigAbsent));
    assert_eq!(stats.hits(), 0);
    assert!(world.entries.is_empty());
    assert_eq!(world.connections, 0);
}

#[test]
fn scenario_image_payload_roundtrip() {
    let cache = Cache::new(Some(ENDPOINT));
    assert!(cache.is_enabled());
    let mut world = world();
    let mut stats = Stats::new();
    stats.cache_hit();
    stats.cache_miss();
    let mut image = serde_json::Map::new();
    image.insert(String::from("width"), serde_json::Value::from(640));
    image.insert(String::from("height"), serde_json::Value::from(480));
    image.insert(String::from("url"), serde_json::Value::from("https://example.com/page"));
    image.insert(String::from("source"), serde_json::Value::from("Bing"));
    image.insert(String::from("title"), serde_json::Value::from("A \"quoted\" cat"));
    image.insert(String::from("image"), serde_json::Value::from("https://example.com/cat.png"));
    let mut payload = serde_json::Map::new();
    payload.insert(String::from("query"), serde_json::Value::from("q"));
    payload.insert(String::from("results"), serde_json::Value::from(vec![serde_json::Value::Object(image)]));
    let payload = serde_json::Value::Object(payload);
    let type_id = "dinkelberg::ddg::ImageResponse";
    let written = drive(cache.setex(type_id, "q"), &mut world, &mut stats, json(&payload), decodes::<serde_json::Value>);
    assert_eq!(written, Outcome::Stored);
    let read = drive(cache.get(type_id, "q", &mut stats), &mut world, &mut stats, None, decodes::<serde_json::Value>);
    match read {
        Outcome::Hit { payload: bytes } => {
            assert_eq!(serde_json::from_slice::<serde_json::Value>(&bytes).unwrap(), payload);
        }
        _ => panic!("the read did not resolve to a value"),
    }
    assert_eq!(stats.hits(), 2);
    assert_eq!(stats.misses(), 1);
}

#[test]
fn setex_with_unencodable_value_writes_nothing() {
    let cache = Cache::new(Some(ENDPOINT));
    let mut world = world();
    let mut stats = Stats::new();
    let outcome = drive(cache.setex("T", "id"), &mut world, &mut stats, None, decodes::<i32>);
    assert_eq!(outcome, Outcome::Degraded(CacheErrorKind::EncodeFailed));
    let outcome = drive(cache.set_scoped("1", "T"), &mut world, &mut stats, None, decodes::<i32>);
    assert_eq!(outcome, Outcome::Degraded(CacheErrorKind::EncodeFailed));
    assert_eq!(world.connections, 0);
    assert!(world.requests.is_empty());
    assert!(world.entries.is_empty());
}

#[test]
fn operations_without_connection_degrade() {
    let cache = Cache::new(Some(ENDPOINT));
    let mut world = world();
    world.entries.insert(String::from("i32.k"), b"5".to_vec());
    world.reachable = false;
    let mut stats = Stats::new();
    let failed = Outcome::Degraded(CacheErrorKind::ConnectionFailed);
    assert_eq!(drive(cache.get("i32", "k", &mut stats), &mut world, &mut stats, None, decodes::<i32>), failed);
    assert_eq!((stats.hits(), stats.misses()), (0, 1));
    assert_eq!(drive(cache.get_scoped("1", "i32"), &mut world, &mut stats, None, decodes::<i32>), failed);
    assert_eq!(drive(cache.setex("i32", "k"), &mut world, &mut stats, json(&6), decodes::<i32>), failed);
    assert_eq!(drive(cache.set_scoped("1", "i32"), &mut world, &mut stats, json(&6), decodes::<i32>), failed);
    assert_eq!(drive(cache.delete(String::from("i32.k")), &mut world, &mut stats, None, decodes::<i32>), failed);
    assert_eq!((stats.hits(), stats.misses()), (0, 1));
    assert_eq!(world.connections, 5);
    assert!(world.requests.is_empty());
    assert_eq!(world.entries.get("i32.k"), Some(&b"5".to_vec()));
}

#[test]
fn operations_that_the_store_fails_degrade() {
    let cache = Cache::new(Some(ENDPOINT));
    let mut world = world();
    world.entries.insert(String::from("i32.k"), b"5".to_vec());
    world.failing = true;
    let mut stats = Stats::new();
    let failed = Outcome::Degraded(CacheErrorKind::BackendError);
    assert_eq!(drive(cache.get("i32", "k", &mut stats), &mut world, &mut stats, None, decodes::<i32>), failed);
    assert_eq!((stats.hits(), stats.misses()), (0, 1));
    assert_eq!(drive(cache.get_scoped("1", "i32"), &mut world, &mut stats, None, decodes::<i32>), failed);
    assert_eq!(drive(cache.setex("i32", "k"), &mut world, &mut stats, json(&6), decodes::<i32>), failed);
    assert_eq!(drive(cache.set_scoped("1", "i32"), &mut world, &mut stats, json(&6), decodes::<i32>), failed);
    assert_eq!(drive(cache.delete(String::from("i32.k")), &mut world, &mut stats, None, decodes::<i32>), failed);
    assert_eq!((stats.hits(), stats.misses()), (0, 1));
    assert_eq!(world.requests.len(), 5);
    assert_eq!(world.entries.get("i32.k"), Some(&b"5".to_vec()));
}

#[test]
fn payload_of_another_type_is_a_miss() {
    let cache = Cache::new(Some(ENDPOINT));
    let mut world = world();
    world.entries.insert(String::from("i32.k"), b"\"text\"".to_vec());
    world.entries.insert(String::from("scope.1.i32"), b"{".to_vec());
    let mut stats = Stats::new();
    let read = drive(cache.get("i32", "k", &mut stats), &mut world, &mut stats, None, decodes::<i32>);
    assert_eq!(read, Outcome::Degraded(CacheErrorKind::DecodeFailed));
    assert_eq!((stats.hits(), stats.misses()), (0, 1));
    let read = drive(cache.get_scoped("1", "i32"), &mut world, &mut stats, None, decodes::<i32>);
    assert_eq!(read, Outcome::Degraded(CacheErrorKind::DecodeFailed));
    assert_eq!((stats.hits(), stats.misses()), (0, 1));
}

#[test]
fn scoped_reads_are_not_counted() {
    let cache = Cache::new(Some(ENDPOINT));
    let mut world = world();
    let mut stats = Stats::new();
    drive(cache.set_scoped("1", "i32"), &mut world, &mut stats, json(&9), decodes::<i32>);
    let read = drive(cache.get_scoped("1", "i32"), &mut world, &mut stats, None, decodes::<i32>);
    assert_eq!(read, Outcome::Hit { payload: b"9".to_vec() });
    let read = drive(cache.get_scoped("2", "i32"), &mut world, &mut stats, None, decodes::<i32>);
    assert_eq!(read, Outcome::Degraded(CacheErrorKind::DecodeFailed));
    assert_eq!((stats.hits(), stats.misses()), (0, 0));
}

#[test]
fn delete_removes_the_entry() {
    let cache = Cache::new(Some(ENDPOINT));
    let mut world = world();
    let mut stats = Stats::new();
    drive(cache.setex("i32", "k"), &mut world, &mut stats, json(&1), decodes::<i32>);
    drive(cache.setex("i32", "other"), &mut world, &mut stats, json(&2), decodes::<i32>);
    world.requests.clear();
    let outcome = drive(cache.delete(plain_key("i32", "k")), &mut world, &mut stats, None, decodes::<i32>);
    assert_eq!(outcome, Outcome::Deleted);
    assert_eq!(world.requests, vec![Request::Del { key: String::from("i32.k") }]);
    assert_eq!(world.entries.len(), 1);
    let read = drive(cache.get("i32", "k", &mut stats), &mut world, &mut stats, None, decodes::<i32>);
    assert_eq!(read, Outcome::Degraded(CacheErrorKind::DecodeFailed));
    let read = drive(cache.get("i32", "other", &mut stats), &mut world, &mut stats, None, decodes::<i32>);
    assert_eq!(read, Outcome::Hit { payload: b"2".to_vec() });
    let outcome = drive(cache.delete(plain_key("i32", "k")), &mut world, &mut stats, None, decodes::<i32>);
    assert_eq!(outcome, Outcome::Deleted);
}

#[test]
fn a_write_replaces_the_entry() {
    let cache = Cache::new(Some(ENDPOINT));
    let mut world = world();
    let mut stats = Stats::new();
    drive(cache.setex("i32", "k"), &mut world, &mut stats, json(&1), decodes::<i32>);
    drive(cache.setex("i32", "k"), &mut world, &mut stats, json(&2), decodes::<i32>);
    let read = drive(cache.get("i32", "k", &mut stats), &mut world, &mut stats, None, decodes::<i32>);
    assert_eq!(read, Outcome::Hit { payload: b"2".to_vec() });
    assert_eq!(world.entries.len(), 1);
}

#[test]
fn the_steps_of_a_typed_read_come_in_order() {
    let cache = Cache::new(Some(ENDPOINT));
    let mut stats = Stats::new();
    let connecting = match cache.get("T", "id", &mut stats) {
        Step::Connect(state) => state,
        _ => panic!("a read starts by acquiring a connection"),
    };
    let reading = match connecting.on_connection(true, &mut stats) {
        Step::Read(state) => state,
        _ => panic!("with a connection the read is sent"),
    };
    assert_eq!(reading.request(), Request::Get { key: String::from("T.id") });
    let decoding = match reading.on_reply(Some(b"1".to_vec()), &mut stats) {
        Step::Decode(state) => state,
        _ => panic!("the payload goes to the decoder"),
    };
    assert_eq!(decoding.payload(), &b"1".to_vec());
    assert_eq!((stats.hits(), stats.misses()), (0, 0));
    assert_eq!(decoding.on_decoded(true, &mut stats), Step::Done(Outcome::Hit { payload: b"1".to_vec() }));
    assert_eq!((stats.hits(), stats.misses()), (1, 0));
}

#[test]
fn the_steps_of_a_write_come_in_order() {
    let cache = Cache::new(Some(ENDPOINT));
    let mut stats = Stats::new();
    let encoding = match cache.setex("T", "id") {
        Step::Encode(state) => state,
        _ => panic!("a write starts by encoding the value"),
    };
    let connecting = match encoding.on_encoded(Some(b"true".to_vec())) {
        Step::Connect(state) => state,
        _ => panic!("an encoded value waits for a connection"),
    };
    let writing = match connecting.on_connection(true, &mut stats) {
        Step::Write(state) => state,
        _ => panic!("with a connection the write is sent"),
    };
    assert_eq!(
        writing.request(),
        &Request::SetEx { key: String::from("T.id"), ttl: 43200, value: b"true".to_vec() }
    );
    assert_eq!(writing.on_reply(true), Step::Done(Outcome::Stored));
    assert_eq!((stats.hits(), stats.misses()), (0, 0));
}
