use sdrtail::cache::SensorStateCache;
use sdrtail::parse::{parse_line, sensor_key, LineOutcome};
use sdrtail::session::TailSession;

fn tower_line(id: u64, channel: &str, battery: i64, temp: &str, hum: &str) -> Vec<u8> {
    format!(
        "{{\"time\":\"2024-01-01 00:00:00\",\"model\":\"Acurite-Tower\",\"id\":{},\"channel\":\"{}\",\"battery_ok\":{},\"temperature_C\":{},\"humidity\":{},\"mic\":\"CHECKSUM\"}}\n",
        id, channel, battery, temp, hum
    )
    .into_bytes()
}

#[test]
fn sensor_key_is_canonical() {
    let k = sensor_key("Acurite-Tower", 5019, "C");
    assert_eq!(k, "acurite-tower-00005019-c");
}

#[test]
fn sensor_key_wide_id_not_truncated() {
    let k = sensor_key("Acurite-Tower", 123456789, "B");
    assert_eq!(k, "acurite-tower-123456789-b");
}

#[test]
fn sensor_key_zero_id() {
    let k = sensor_key("Acurite-Tower", 0, "A");
    assert_eq!(k, "acurite-tower-00000000-a");
}

#[test]
fn supported_line_reaches_snapshot() {
    let mut cache = SensorStateCache::new();
    let mut s = TailSession::start(1, 2, 0);
    s.on_chunk(&tower_line(5019, "C", 1, "21.5", "55"), &mut cache);
    let snap = cache.snapshot();
    assert_eq!(snap.len(), 1);
    assert_eq!(snap[0].0, "acurite-tower-00005019-c");
    assert_eq!(snap[0].1.model, "Acurite-Tower");
    assert_eq!(snap[0].1.id, 5019);
    assert_eq!(snap[0].1.channel, "C");
    assert_eq!(snap[0].1.battery_ok, 1);
    assert_eq!(snap[0].1.temperature_c, "21.5");
    assert_eq!(snap[0].1.humidity, "55");
    assert_eq!(snap[0].1.time, "2024-01-01 00:00:00");
    assert_eq!(snap[0].1.mic, "CHECKSUM");
}

#[test]
fn unknown_model_makes_no_cache_change() {
    let mut cache = SensorStateCache::new();
    let mut s = TailSession::start(1, 2, 0);
    let line = b"{\"time\":\"t\",\"model\":\"Nexus-TH\",\"id\":7}\n";
    s.on_chunk(line, &mut cache);
    assert_eq!(cache.len(), 0);
}

#[test]
fn malformed_line_recovered_next_line_processed() {
    let mut cache = SensorStateCache::new();
    let mut s = TailSession::start(1, 2, 0);
    let mut feed = b"this is not json at all\n".to_vec();
    feed.extend_from_slice(&tower_line(5019, "C", 1, "21.5", "55"));
    s.on_chunk(&feed, &mut cache);
    assert_eq!(cache.len(), 1);
    let snap = cache.snapshot();
    assert_eq!(snap[0].0, "acurite-tower-00005019-c");
}

#[test]
fn schema_mismatch_is_dropped() {
    let mut cache = SensorStateCache::new();
    let mut s = TailSession::start(1, 2, 0);
    // Supported model but no "mic" field: stage-two decode fails, recovered.
    let line = "{\"time\":\"t\",\"model\":\"Acurite-Tower\",\"id\":5019,\"channel\":\"C\",\"battery_ok\":1,\"temperature_C\":21.5,\"humidity\":55}\n";
    s.on_chunk(line.as_bytes(), &mut cache);
    assert_eq!(cache.len(), 0);
}

#[test]
fn two_lines_same_sensor_last_wins() {
    let mut cache = SensorStateCache::new();
    let mut s = TailSession::start(1, 2, 0);
    s.on_chunk(&tower_line(5019, "C", 1, "21.5", "55"), &mut cache);
    s.on_chunk(&tower_line(5019, "C", 0, "22.0", "56"), &mut cache);
    let snap = cache.snapshot();
    assert_eq!(snap.len(), 1);
    assert_eq!(snap[0].0, "acurite-tower-00005019-c");
    assert_eq!(snap[0].1.battery_ok, 0);
    assert_eq!(snap[0].1.temperature_c, "22");
    assert_eq!(snap[0].1.humidity, "56");
}

#[test]
fn parse_line_outcomes() {
    assert!(matches!(parse_line(b"not json"), LineOutcome::Malformed));
    assert!(matches!(
        parse_line(b"{\"time\":\"t\"}"),
        LineOutcome::Malformed
    ));
    assert!(matches!(
        parse_line(b"{\"time\":\"t\",\"model\":\"Other\"}"),
        LineOutcome::UnknownModel
    ));
    let good = tower_line(5019, "C", 1, "21.5", "55");
    let body = &good[..good.len() - 1];
    match parse_line(body) {
        LineOutcome::Record(r) => {
            assert_eq!(r.id, 5019);
            assert_eq!(r.battery_ok, 1);
        }
        _ => panic!("expected a record"),
    }
}

#[test]
fn envelope_needs_time_and_model_strings() {
    // model present but time missing, or time of the wrong type: stage one
    // fails and the line is dropped.
    assert!(matches!(
        parse_line(b"{\"model\":\"Acurite-Tower\"}"),
        LineOutcome::Malformed
    ));
    assert!(matches!(
        parse_line(b"{\"time\":7,\"model\":\"Acurite-Tower\"}"),
        LineOutcome::Malformed
    ));
}

#[test]
fn battery_flag_must_be_integer() {
    let line = "{\"time\":\"t\",\"model\":\"Acurite-Tower\",\"id\":5019,\"channel\":\"C\",\"battery_ok\":1.5,\"temperature_C\":21.5,\"humidity\":55,\"mic\":\"m\"}";
    assert!(matches!(parse_line(line.as_bytes()), LineOutcome::Malformed));
}

#[test]
fn snapshot_order_stable_and_insertion_ordered() {
    let mut cache = SensorStateCache::new();
    let mut s = TailSession::start(1, 2, 0);
    s.on_chunk(&tower_line(7276, "B", 1, "20.0", "50"), &mut cache);
    s.on_chunk(&tower_line(5019, "C", 1, "21.5", "55"), &mut cache);
    let a = cache.snapshot();
    let b = cache.snapshot();
    assert_eq!(a.len(), 2);
    assert_eq!(a[0].0, "acurite-tower-00007276-b");
    assert_eq!(a[1].0, "acurite-tower-00005019-c");
    assert_eq!(b[0].0, a[0].0);
    assert_eq!(b[1].0, a[1].0);
    // An upsert of an existing id keeps its position.
    s.on_chunk(&tower_line(7276, "B", 0, "19.0", "48"), &mut cache);
    let c = cache.snapshot();
    assert_eq!(c[0].0, "acurite-tower-00007276-b");
    assert_eq!(c[0].1.battery_ok, 0);
}

#[test]
fn snapshot_is_independent_copy() {
    let mut cache = SensorStateCache::new();
    let mut s = TailSession::start(1, 2, 0);
    s.on_chunk(&tower_line(5019, "C", 1, "21.5", "55"), &mut cache);
    let before = cache.snapshot();
    s.on_chunk(&tower_line(5019, "C", 0, "22.0", "56"), &mut cache);
    // The earlier copy is untouched by the later write; each entry was
    // replaced wholesale, never patched in place.
    assert_eq!(before[0].1.battery_ok, 1);
    assert_eq!(before[0].1.temperature_c, "21.5");
    let after = cache.snapshot();
    assert_eq!(after[0].1.battery_ok, 0);
    assert_eq!(after[0].1.temperature_c, "22");
}
