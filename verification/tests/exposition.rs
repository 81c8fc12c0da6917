use sdrtail::cache::SensorStateCache;
use sdrtail::emitter::Emitter;
use sdrtail::metrics::render_metrics;
use sdrtail::session::TailSession;

fn tower_line(id: u64, channel: &str, battery: i64, temp: &str, hum: &str) -> Vec<u8> {
    format!(
        "{{\"time\":\"2024-01-01 00:00:00\",\"model\":\"Acurite-Tower\",\"id\":{},\"channel\":\"{}\",\"battery_ok\":{},\"temperature_C\":{},\"humidity\":{},\"mic\":\"CHECKSUM\"}}\n",
        id, channel, battery, temp, hum
    )
    .into_bytes()
}

#[test]
fn emitter_exact_format() {
    let mut e = Emitter::new();
    e.define(
        "temperature_battery_ok",
        "gauge",
        "sensor battery health",
        "location",
    );
    e.emit_i64("temperature_battery_ok", "garage-door", 1);
    let expected = "# TYPE temperature_battery_ok gauge\n# HELP temperature_battery_ok sensor battery health\ntemperature_battery_ok{location=\"garage-door\"}\t1\n";
    assert_eq!(e.out(), expected);
}

#[test]
fn emitter_headers_only_once() {
    let mut e = Emitter::new();
    e.define("m", "gauge", "d", "l");
    e.emit_i64("m", "a", 1);
    e.emit_i64("m", "b", 2);
    let expected = "# TYPE m gauge\n# HELP m d\nm{l=\"a\"}\t1\nm{l=\"b\"}\t2\n";
    assert_eq!(e.out(), expected);
}

#[test]
fn emitter_negative_value() {
    let mut e = Emitter::new();
    e.define("m", "gauge", "d", "l");
    e.emit_i64("m", "x", -5);
    assert!(e.out().ends_with("m{l=\"x\"}\t-5\n"));
}

#[test]
fn emitter_text_value() {
    let mut e = Emitter::new();
    e.define("m", "gauge", "d", "l");
    e.emit_text("m", "x", "21.5");
    assert!(e.out().ends_with("m{l=\"x\"}\t21.5\n"));
}

#[test]
fn render_known_sensor_full_exposition() {
    let mut cache = SensorStateCache::new();
    let mut s = TailSession::start(1, 2, 0);
    s.on_chunk(&tower_line(5019, "C", 1, "21.5", "55"), &mut cache);
    let snap = cache.snapshot();
    let text = render_metrics(&snap);
    let mut expected = String::new();
    expected.push_str("# TYPE temperature_degrees_celsius gauge\n");
    expected.push_str("# HELP temperature_degrees_celsius temperature in degrees celsius\n");
    expected.push_str("temperature_degrees_celsius{location=\"garage-door\"}\t21.5\n");
    expected.push_str("# TYPE temperature_humidity_percent gauge\n");
    expected.push_str("# HELP temperature_humidity_percent relative humidity\n");
    expected.push_str("temperature_humidity_percent{location=\"garage-door\"}\t55\n");
    expected.push_str("# TYPE temperature_battery_ok gauge\n");
    expected.push_str("# HELP temperature_battery_ok sensor battery health\n");
    expected.push_str("temperature_battery_ok{location=\"garage-door\"}\t1\n");
    assert_eq!(text, expected);
}

#[test]
fn render_two_sensors_headers_once() {
    let mut cache = SensorStateCache::new();
    let mut s = TailSession::start(1, 2, 0);
    s.on_chunk(&tower_line(5019, "C", 1, "21.5", "55"), &mut cache);
    s.on_chunk(&tower_line(7276, "B", 0, "18.0", "40"), &mut cache);
    let text = render_metrics(&cache.snapshot());
    assert_eq!(text.matches("# TYPE temperature_degrees_celsius").count(), 1);
    assert!(text.contains("temperature_degrees_celsius{location=\"garage-door\"}\t21.5\n"));
    assert!(text.contains("temperature_degrees_celsius{location=\"interior-door\"}\t18\n"));
    assert!(text.contains("temperature_battery_ok{location=\"interior-door\"}\t0\n"));
}

#[test]
fn render_unknown_sensor_skipped() {
    let mut cache = SensorStateCache::new();
    let mut s = TailSession::start(1, 2, 0);
    s.on_chunk(&tower_line(9999, "A", 1, "21.5", "55"), &mut cache);
    let text = render_metrics(&cache.snapshot());
    assert_eq!(text, "");
}

#[test]
fn render_empty_cache_is_empty() {
    let cache = SensorStateCache::new();
    let text = render_metrics(&cache.snapshot());
    assert_eq!(text, "");
}
