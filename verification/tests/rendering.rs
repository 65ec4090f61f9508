use kozmotic::errors::AgentPingError;
use kozmotic::output::{
    render_error_json, render_example_json, render_human_error, render_human_list,
    render_list_json, render_ping_json, OutputFormat,
};
use kozmotic::presets::{get_preset, preset_names, Asset};
use kozmotic::request::{Request, Source};
use kozmotic::text::{escape_json, i64_milli_to_dec, str_eq, to_ascii_lower, u64_to_dec};

const TS: &str = "2024-01-02T03:04:05.678+00:00";

#[test]
fn example_envelope_exact() {
    let text = render_example_json("Test", TS);
    let expected = "{\n  \"status\": \"success\",\n  \"data\": {\n    \"message\": \"Hello, Test!\"\n  },\n  \"metadata\": {\n    \"timestamp\": \"2024-01-02T03:04:05.678+00:00\",\n    \"tool\": \"example\",\n    \"version\": \"0.1.0\"\n  }\n}";
    assert_eq!(text, expected);
}

#[test]
fn error_envelope_exact() {
    let err = AgentPingError::InvalidVolume(1500);
    let text = render_error_json(&err, TS);
    let expected = "{\n  \"status\": \"error\",\n  \"data\": {\n    \"code\": \"INVALID_VOLUME\",\n    \"message\": \"volume must be between 0.0 and 1.0, got 1.5\"\n  },\n  \"metadata\": {\n    \"timestamp\": \"2024-01-02T03:04:05.678+00:00\",\n    \"tool\": \"agent-ping\",\n    \"version\": \"0.1.0\"\n  }\n}";
    assert_eq!(text, expected);
}

#[test]
fn tone_dry_run_envelope_exact() {
    let req = Request {
        source: Source::Tone { frequency: 440_000, duration: 200 },
        volume: 500,
        repeat: 1,
        interval: 100,
    };
    let text = render_ping_json(&req, false, TS);
    let expected = "{\n  \"status\": \"success\",\n  \"data\": {\n    \"details\": {\n      \"duration_ms\": 200,\n      \"frequency\": 440.0,\n      \"repeat\": 1,\n      \"volume\": 0.5\n    },\n    \"played\": false,\n    \"sound\": \"440 Hz tone\"\n  },\n  \"metadata\": {\n    \"timestamp\": \"2024-01-02T03:04:05.678+00:00\",\n    \"tool\": \"agent-ping\",\n    \"version\": \"0.1.0\"\n  }\n}";
    assert_eq!(text, expected);
}

#[test]
fn list_envelope_holds_all_presets_in_order() {
    let text = render_list_json(TS);
    let expected_data = "\"presets\": [\n      \"PostToolUse\",\n      \"Stop\",\n      \"SubagentStop\",\n      \"TaskCompleted\",\n      \"Notification\"\n    ]";
    assert!(text.contains(expected_data));
    assert!(text.contains("\"status\": \"success\""));
}

#[test]
fn human_list_exact() {
    assert_eq!(
        render_human_list(),
        "Available presets:\n  PostToolUse\n  Stop\n  SubagentStop\n  TaskCompleted\n  Notification"
    );
}

#[test]
fn human_error_line_exact() {
    let err = AgentPingError::UnknownPreset("Chime".to_string());
    assert_eq!(
        render_human_error(&err),
        "Error [UNKNOWN_PRESET]: unknown preset: Chime"
    );
}

#[test]
fn timestamp_and_user_text_are_escaped() {
    let err = AgentPingError::FileNotFound("a\"b\\c\nd.wav".to_string());
    let text = render_error_json(&err, "ts\"with quote");
    assert!(text.contains("file not found: a\\\"b\\\\c\\nd.wav"));
    assert!(text.contains("\"timestamp\": \"ts\\\"with quote\""));
}

#[test]
fn escape_json_handles_controls() {
    assert_eq!(escape_json("plain"), "plain");
    assert_eq!(escape_json("a\"b"), "a\\\"b");
    assert_eq!(escape_json("a\\b"), "a\\\\b");
    assert_eq!(escape_json("a\nb\tc\rd"), "a\\nb\\tc\\rd");
    assert_eq!(escape_json("\u{8}\u{c}\u{1}\u{1f}"), "\\b\\f\\u0001\\u001f");
}

#[test]
fn preset_lookup_maps_names_to_assets() {
    assert_eq!(get_preset("PostToolUse"), Some(Asset::Beep));
    assert_eq!(get_preset("Stop"), Some(Asset::MessageSent));
    assert_eq!(get_preset("SubagentStop"), Some(Asset::MessageSent));
    assert_eq!(get_preset("TaskCompleted"), Some(Asset::MessageSent));
    assert_eq!(get_preset("Notification"), Some(Asset::Message));
    assert_eq!(get_preset("NOTIFICATION"), Some(Asset::Message));
    assert_eq!(get_preset("nothing"), None);
}

#[test]
fn preset_names_canonical() {
    assert_eq!(
        preset_names(),
        vec!["PostToolUse", "Stop", "SubagentStop", "TaskCompleted", "Notification"]
    );
}

#[test]
fn format_parse_accepts_both_cases() {
    assert!(matches!(OutputFormat::from_str("json"), Ok(OutputFormat::Json)));
    assert!(matches!(OutputFormat::from_str("HUMAN"), Ok(OutputFormat::Human)));
    let err = OutputFormat::from_str("xml").unwrap_err();
    assert_eq!(err, "Invalid format: xml. Use 'json' or 'human'");
}

#[test]
fn ascii_lowering_folds_only_ascii() {
    assert_eq!(to_ascii_lower("MiXeD-42"), "mixed-42");
    assert!(str_eq(&to_ascii_lower("STOP"), "stop"));
    assert!(!str_eq("stop", "Stop"));
}

#[test]
fn decimal_renderings_exact() {
    assert_eq!(u64_to_dec(0), "0");
    assert_eq!(u64_to_dec(20000), "20000");
    assert_eq!(i64_milli_to_dec(500, false), "0.5");
    assert_eq!(i64_milli_to_dec(500, true), "0.5");
    assert_eq!(i64_milli_to_dec(1000, false), "1");
    assert_eq!(i64_milli_to_dec(1000, true), "1.0");
    assert_eq!(i64_milli_to_dec(20_000_000, false), "20000");
    assert_eq!(i64_milli_to_dec(-1500, false), "-1.5");
    assert_eq!(i64_milli_to_dec(1250, true), "1.25");
    assert_eq!(i64_milli_to_dec(1205, true), "1.205");
}
