use membreak::sdk::offsets::{
    check_updated, get_netvar, get_signature, load_local, local_from_parse, read_timestamp,
    start, step, updated_against, Notice, OffsetsAction, OffsetsError, OffsetsEvent,
    OffsetsState, MISSING_OFFSET,
};

const TABLE: &str = r#"{
    "timestamp": 100,
    "signatures": { "dwLocalPlayer": 14002, "dwEntityList": 77, "m_bDormant": 237, "odd": "12" },
    "netvars": { "m_iHealth": 256, "m_iTeamNum": 244, "frac": 1.5, "neg": -4 }
}"#;

fn table() -> json::JsonValue {
    json::parse(TABLE).unwrap()
}

#[test]
fn signature_present() {
    assert_eq!(get_signature(&table(), "dwLocalPlayer"), Ok(14002));
    assert_eq!(get_signature(&table(), "m_bDormant"), Ok(237));
}

#[test]
fn signature_missing_or_not_unsigned() {
    let t = table();
    assert_eq!(get_signature(&t, "dwNothing"), Err(0x10));
    assert_eq!(get_signature(&t, "odd"), Err(MISSING_OFFSET));
    // a netvar is not a signature
    assert_eq!(get_signature(&t, "m_iHealth"), Err(0x10));
}

#[test]
fn netvar_present() {
    assert_eq!(get_netvar(&table(), "m_iHealth"), Ok(256));
    assert_eq!(get_netvar(&table(), "m_iTeamNum"), Ok(244));
}

#[test]
fn netvar_missing_or_not_unsigned() {
    let t = table();
    assert_eq!(get_netvar(&t, "frac"), Err(0x10));
    assert_eq!(get_netvar(&t, "neg"), Err(0x10));
    assert_eq!(get_netvar(&t, "dwLocalPlayer"), Err(0x10));
}

#[test]
fn lookup_in_non_object_is_missing() {
    let arr = json::parse("[1, 2, 3]").unwrap();
    assert_eq!(get_signature(&arr, "dwLocalPlayer"), Err(0x10));
    let flat = json::parse(r#"{"signatures": 5}"#).unwrap();
    assert_eq!(get_signature(&flat, "dwLocalPlayer"), Err(0x10));
}

#[test]
fn timestamp_read() {
    assert_eq!(read_timestamp(&table()), Some(100));
    let no_ts = json::parse(r#"{"signatures": {}}"#).unwrap();
    assert_eq!(read_timestamp(&no_ts), None);
    let str_ts = json::parse(r#"{"timestamp": "100"}"#).unwrap();
    assert_eq!(read_timestamp(&str_ts), None);
}

#[test]
fn check_updated_compares_timestamps() {
    assert_eq!(check_updated(100, r#"{"timestamp": 100}"#), Ok(true));
    assert_eq!(check_updated(100, r#"{"timestamp": 99}"#), Ok(true));
    assert_eq!(check_updated(100, r#"{"timestamp": 101}"#), Ok(false));
}

#[test]
fn check_updated_errors() {
    assert_eq!(check_updated(100, "{ not json"), Err(OffsetsError::NewestParse));
    assert_eq!(check_updated(100, r#"{"time": 101}"#), Err(OffsetsError::NewestTimestamp));
}

#[test]
fn updated_against_parse_results() {
    assert_eq!(updated_against(5, json::parse(r#"{"timestamp": 6}"#)), Ok(false));
    assert_eq!(updated_against(6, json::parse(r#"{"timestamp": 6}"#)), Ok(true));
    assert_eq!(updated_against(6, json::parse("]")), Err(OffsetsError::NewestParse));
}

#[test]
fn local_table_loading() {
    assert!(load_local(TABLE).is_ok());
    assert_eq!(load_local("nope").err(), Some(OffsetsError::LocalParse));
    assert_eq!(load_local("{}").err(), Some(OffsetsError::LocalTimestamp));
    assert_eq!(local_from_parse(json::parse("[]")).err(), Some(OffsetsError::LocalTimestamp));
    let v = local_from_parse(json::parse(TABLE)).unwrap();
    assert_eq!(get_netvar(&v, "m_iHealth"), Ok(256));
}

#[test]
fn loading_starts_by_reading() {
    let (s, a) = start();
    assert!(matches!(s, OffsetsState::ReadLocal));
    assert!(matches!(a, OffsetsAction::ReadLocalFile));
}

#[test]
fn missing_local_table_is_fetched_then_reread() {
    let (s, a) = step(OffsetsState::ReadLocal, OffsetsEvent::LocalFile(None));
    assert!(matches!(s, OffsetsState::AwaitSave));
    assert!(matches!(a, OffsetsAction::SaveNewest(Notice::Missing)));
    let (s, a) = step(s, OffsetsEvent::Saved);
    assert!(matches!(s, OffsetsState::ReadLocal));
    assert!(matches!(a, OffsetsAction::ReadLocalFile));
}

#[test]
fn current_local_table_is_handed_back() {
    let (s, a) = step(OffsetsState::ReadLocal, OffsetsEvent::LocalFile(Some(TABLE.to_string())));
    assert!(matches!(s, OffsetsState::AwaitNewest { .. }));
    assert!(matches!(a, OffsetsAction::DownloadNewest));
    let (s, a) = step(s, OffsetsEvent::Newest(r#"{"timestamp": 100}"#.to_string()));
    assert!(matches!(s, OffsetsState::Finished));
    match a {
        OffsetsAction::Finish(v) => {
            assert_eq!(read_timestamp(&v), Some(100));
            assert_eq!(get_signature(&v, "dwEntityList"), Ok(77));
        }
        other => panic!("unexpected action {:?}", other),
    }
}

#[test]
fn outdated_local_table_is_replaced() {
    let (s, _) = step(OffsetsState::ReadLocal, OffsetsEvent::LocalFile(Some(TABLE.to_string())));
    let (s, a) = step(s, OffsetsEvent::Newest(r#"{"timestamp": 101}"#.to_string()));
    assert!(matches!(s, OffsetsState::AwaitSave));
    assert!(matches!(a, OffsetsAction::SaveNewest(Notice::Outdated)));
    let (s, a) = step(s, OffsetsEvent::Saved);
    assert!(matches!(s, OffsetsState::ReadLocal));
    assert!(matches!(a, OffsetsAction::ReadLocalFile));
}

#[test]
fn loading_failures() {
    let (s, a) = step(OffsetsState::ReadLocal, OffsetsEvent::LocalFile(Some("{".to_string())));
    assert!(matches!(s, OffsetsState::Finished));
    assert!(matches!(a, OffsetsAction::Fail(OffsetsError::LocalParse)));
    let (_, a) = step(OffsetsState::ReadLocal, OffsetsEvent::LocalFile(Some("{}".to_string())));
    assert!(matches!(a, OffsetsAction::Fail(OffsetsError::LocalTimestamp)));
    let (s, _) = step(OffsetsState::ReadLocal, OffsetsEvent::LocalFile(Some(TABLE.to_string())));
    let (_, a) = step(s, OffsetsEvent::Newest("oops".to_string()));
    assert!(matches!(a, OffsetsAction::Fail(OffsetsError::NewestParse)));
    let (s, _) = step(OffsetsState::ReadLocal, OffsetsEvent::LocalFile(Some(TABLE.to_string())));
    let (_, a) = step(s, OffsetsEvent::Newest("{}".to_string()));
    assert!(matches!(a, OffsetsAction::Fail(OffsetsError::NewestTimestamp)));
    let stale = OffsetsState::AwaitNewest { local: json::parse("{}").unwrap() };
    let (_, a) = step(stale, OffsetsEvent::Newest(r#"{"timestamp": 1}"#.to_string()));
    assert!(matches!(a, OffsetsAction::Fail(OffsetsError::LocalTimestamp)));
}

#[test]
fn unexpected_events_fail() {
    let (s, a) = step(OffsetsState::ReadLocal, OffsetsEvent::Saved);
    assert!(matches!(s, OffsetsState::Finished));
    assert!(matches!(a, OffsetsAction::Fail(OffsetsError::UnexpectedEvent)));
    let (_, a) = step(OffsetsState::AwaitSave, OffsetsEvent::LocalFile(None));
    assert!(matches!(a, OffsetsAction::Fail(OffsetsError::UnexpectedEvent)));
    let (_, a) = step(OffsetsState::Finished, OffsetsEvent::Saved);
    assert!(matches!(a, OffsetsAction::Fail(OffsetsError::UnexpectedEvent)));
}
