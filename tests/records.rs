use std::collections::HashMap;

use player_records::json::{default_custom_data, JsonValue};
use player_records::record::{PlayerRecord, Verdict};
use player_records::store::{path_or_fallback, playerlist_file_name, PlayerRecords, StoreError};
use player_records::time::{default_date, Timestamp};

fn stamp() -> Timestamp {
    Timestamp { secs: 1_700_000_000, nanos: 5 }
}

fn record(verdict: Verdict, names: &[&str], custom_data: JsonValue) -> PlayerRecord {
    PlayerRecord {
        custom_data,
        verdict,
        previous_names: names.iter().map(|n| n.to_string()).collect(),
        modified: stamp(),
        created: stamp(),
    }
}

fn note(text: &str) -> JsonValue {
    JsonValue::Object(vec![("note".to_string(), JsonValue::String(text.to_string()))])
}

fn names(store: &PlayerRecords, id: u64) -> Vec<String> {
    store.get(id).unwrap().previous_names.clone()
}

#[test]
fn default_record_is_empty() {
    let r = PlayerRecord::default();
    assert!(r.is_empty());
    assert_eq!(r.verdict, Verdict::Player);
    assert!(matches!(&r.custom_data, JsonValue::Object(m) if m.is_empty()));
    assert!(r.previous_names.is_empty());
    assert_eq!(r.created, r.modified);
}

#[test]
fn non_neutral_verdict_is_not_empty() {
    for v in [Verdict::Bot, Verdict::Suspicious, Verdict::Cheater, Verdict::Trusted] {
        let mut r = PlayerRecord::default();
        r.verdict = v;
        assert!(!r.is_empty());
    }
}

#[test]
fn annotations_decide_emptiness() {
    let mut r = PlayerRecord::default();
    r.custom_data = note("x");
    assert!(!r.is_empty());
    r.custom_data = JsonValue::Array(vec![JsonValue::Bool(true)]);
    assert!(!r.is_empty());
    r.custom_data = JsonValue::String("a".to_string());
    assert!(!r.is_empty());
    r.custom_data = JsonValue::Number(serde_json::Number::from(0u64));
    assert!(!r.is_empty());
    r.custom_data = JsonValue::Bool(false);
    assert!(!r.is_empty());
    r.custom_data = JsonValue::String(String::new());
    assert!(r.is_empty());
    r.custom_data = JsonValue::Array(Vec::new());
    assert!(r.is_empty());
    r.custom_data = JsonValue::Null;
    assert!(r.is_empty());
}

#[test]
fn default_custom_data_is_empty_object() {
    assert!(matches!(default_custom_data(), JsonValue::Object(m) if m.is_empty()));
}

#[test]
fn verdict_names() {
    assert_eq!(Verdict::Player.to_string(), "Player");
    assert_eq!(Verdict::Bot.to_string(), "Bot");
    assert_eq!(Verdict::Suspicious.to_string(), "Suspicious");
    assert_eq!(Verdict::Cheater.to_string(), "Cheater");
    assert_eq!(Verdict::Trusted.to_string(), "Trusted");
    assert_eq!(Verdict::default(), Verdict::Player);
}

#[test]
fn current_time_is_after_epoch() {
    let now = default_date();
    assert!(now.secs > 1_600_000_000);
    assert!(now.nanos < 1_000_000_000);
}

#[test]
fn update_name_example() {
    let mut store = PlayerRecords::new("list.json".to_string());
    store.insert(1, record(Verdict::Cheater, &["alpha"], note("x")));
    store.update_name(1, "alpha".to_string());
    assert_eq!(names(&store, 1), vec!["alpha".to_string()]);
    store.update_name(1, "beta".to_string());
    assert_eq!(names(&store, 1), vec!["alpha".to_string(), "beta".to_string()]);
    let r = store.get(1).unwrap();
    assert_eq!(r.verdict, Verdict::Cheater);
    assert!(matches!(&r.custom_data, JsonValue::Object(m) if m.len() == 1 && m[0].0 == "note"));
}

#[test]
fn update_name_twice_records_once() {
    let mut store = PlayerRecords::new("list.json".to_string());
    store.insert(7, PlayerRecord::default());
    let modified = store.get(7).unwrap().modified;
    store.update_name(7, "gamma".to_string());
    store.update_name(7, "gamma".to_string());
    assert_eq!(names(&store, 7), vec!["gamma".to_string()]);
    store.update_name(7, "Gamma".to_string());
    assert_eq!(names(&store, 7), vec!["gamma".to_string(), "Gamma".to_string()]);
    assert_eq!(store.get(7).unwrap().modified, modified);
}

#[test]
fn update_name_unknown_creates_nothing() {
    let mut store = PlayerRecords::new("list.json".to_string());
    store.update_name(42, "delta".to_string());
    assert_eq!(store.len(), 0);
    assert!(!store.contains_key(42));
    assert!(store.get(42).is_none());
}

#[test]
fn map_access() {
    let mut store = PlayerRecords::new("list.json".to_string());
    assert!(store.insert(3, record(Verdict::Bot, &[], JsonValue::Null)).is_none());
    assert!(store.insert(4, record(Verdict::Trusted, &[], JsonValue::Null)).is_none());
    let prev = store.insert(3, record(Verdict::Suspicious, &[], JsonValue::Null));
    assert_eq!(prev.unwrap().verdict, Verdict::Bot);
    assert_eq!(store.len(), 2);
    let mut ids = store.ids();
    ids.sort();
    assert_eq!(ids, vec![3, 4]);
    assert_eq!(store.remove(4).unwrap().verdict, Verdict::Trusted);
    assert!(store.remove(4).is_none());
    assert_eq!(store.ids(), vec![3]);
    assert_eq!(store.get(3).unwrap().verdict, Verdict::Suspicious);
}

#[test]
fn set_path_keeps_records() {
    let mut store = PlayerRecords::new("a.json".to_string());
    store.insert(9, PlayerRecord::default());
    store.set_path("b.json".to_string());
    assert_eq!(store.path(), "b.json");
    assert_eq!(store.len(), 1);
}

#[test]
fn load_replaces_null_annotations() {
    let mut parsed = HashMap::new();
    parsed.insert(1u64, record(Verdict::Player, &["a"], JsonValue::Null));
    parsed.insert(2u64, record(Verdict::Bot, &[], note("y")));
    parsed.insert(3u64, record(Verdict::Cheater, &[], JsonValue::Array(Vec::new())));
    let store = PlayerRecords::load_from("list.json".to_string(), Ok(parsed)).unwrap();
    assert_eq!(store.path(), "list.json");
    assert_eq!(store.len(), 3);
    let one = store.get(1).unwrap();
    assert!(matches!(&one.custom_data, JsonValue::Object(m) if m.is_empty()));
    assert_eq!(one.previous_names, vec!["a".to_string()]);
    assert_eq!(one.created, stamp());
    assert!(matches!(&store.get(2).unwrap().custom_data, JsonValue::Object(m) if m.len() == 1));
    assert!(matches!(&store.get(3).unwrap().custom_data, JsonValue::Array(a) if a.is_empty()));

    // Loading the normalised records again changes nothing.
    let again = PlayerRecords::load_from("list.json".to_string(), Ok(store.records)).unwrap();
    assert!(matches!(&again.get(1).unwrap().custom_data, JsonValue::Object(m) if m.is_empty()));
    assert!(matches!(&again.get(2).unwrap().custom_data, JsonValue::Object(m) if m.len() == 1));
    assert!(matches!(&again.get(3).unwrap().custom_data, JsonValue::Array(a) if a.is_empty()));
}

#[test]
fn reload_keeps_every_verdict() {
    let verdicts = [
        Verdict::Player,
        Verdict::Bot,
        Verdict::Suspicious,
        Verdict::Cheater,
        Verdict::Trusted,
    ];
    let mut store = PlayerRecords::new("list.json".to_string());
    for (i, v) in verdicts.iter().enumerate() {
        let id = 100 + i as u64;
        store.insert(id, record(*v, &["x", "y"], note("n")));
    }
    let PlayerRecords { path, records } = store;
    let loaded = PlayerRecords::load_from(path, Ok(records)).unwrap();
    assert_eq!(loaded.len(), 5);
    for (i, v) in verdicts.iter().enumerate() {
        let r = loaded.get(100 + i as u64).unwrap();
        assert_eq!(r.verdict, *v);
        assert_eq!(r.previous_names, vec!["x".to_string(), "y".to_string()]);
        assert!(matches!(&r.custom_data, JsonValue::Object(m) if m.len() == 1));
    }
}

#[test]
fn load_passes_errors_on() {
    let err = PlayerRecords::load_from(
        "list.json".to_string(),
        Err(StoreError::Format { path: "list.json".to_string(), message: "eof".to_string() }),
    );
    assert!(matches!(err, Err(StoreError::Format { .. })));
}

#[test]
fn startup_with_missing_file_creates_empty_store() {
    let missing = Err(StoreError::NotFound { path: "new.json".to_string() });
    let store = PlayerRecords::load_or_create("new.json".to_string(), missing).unwrap();
    assert_eq!(store.path(), "new.json");
    assert_eq!(store.len(), 0);
}

#[test]
fn startup_keeps_loaded_store() {
    let mut loaded = PlayerRecords::new("x.json".to_string());
    loaded.insert(5, PlayerRecord::default());
    let store = PlayerRecords::load_or_create("x.json".to_string(), Ok(loaded)).unwrap();
    assert_eq!(store.len(), 1);
}

#[test]
fn startup_refuses_malformed_file() {
    let bad = Err(StoreError::Format { path: "x.json".to_string(), message: "bad".to_string() });
    let r = PlayerRecords::load_or_create("x.json".to_string(), bad);
    assert!(matches!(r, Err(StoreError::Format { .. })));
    let io = Err(StoreError::Io { path: "x.json".to_string(), message: "denied".to_string() });
    let r = PlayerRecords::load_or_create("x.json".to_string(), io);
    assert!(matches!(r, Err(StoreError::Io { .. })));
}

#[test]
fn fallback_path() {
    let (p, warning) = path_or_fallback(Ok("/home/u/.config/playerlist.json".to_string()));
    assert_eq!(p, "/home/u/.config/playerlist.json");
    assert!(warning.is_none());
    let (p, warning) =
        path_or_fallback(Err(StoreError::DirectoryUnavailable { message: "no home".to_string() }));
    assert_eq!(p, "playerlist.json");
    assert!(matches!(warning, Some(StoreError::DirectoryUnavailable { .. })));
    assert_eq!(playerlist_file_name(), "playerlist.json");
}
