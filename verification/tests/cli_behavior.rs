use kozmotic::dispatch::{agent_ping_step, example_step, report_play, Directive};
use kozmotic::errors::AgentPingError;
use kozmotic::output::OutputFormat;
use kozmotic::request::AgentPingArgs;

fn base_args() -> AgentPingArgs {
    AgentPingArgs {
        sound: None,
        file: None,
        frequency: None,
        duration: 200,
        volume: 500,
        repeat: 1,
        interval: 100,
        list: false,
        dry_run: false,
    }
}

fn printed(d: Directive) -> (String, u8) {
    match d {
        Directive::Print { text, exit } => (text, exit),
        Directive::PrintError { text, exit } => panic!("expected stdout, got stderr: {text} ({exit})"),
        Directive::Play { .. } => panic!("expected a printed result, got a play directive"),
    }
}

fn printed_error(d: Directive) -> (String, u8) {
    match d {
        Directive::PrintError { text, exit } => (text, exit),
        Directive::Print { text, exit } => panic!("expected stderr, got stdout: {text} ({exit})"),
        Directive::Play { .. } => panic!("expected an error, got a play directive"),
    }
}

#[test]
fn test_example_json_output() {
    let d = example_step(OutputFormat::Json, Some("Test".to_string()));
    let (text, exit) = printed(d);
    assert_eq!(exit, 0);
    assert!(text.contains("\"status\": \"success\""));
    assert!(text.contains("Hello, Test!"));
}

#[test]
fn test_example_human_output() {
    let d = example_step(OutputFormat::Human, Some("Test".to_string()));
    let (text, exit) = printed(d);
    assert_eq!(exit, 0);
    assert!(text.contains("Hello, Test!"));
    assert!(!text.contains("status"));
}

#[test]
fn test_agent_ping_list() {
    let mut args = base_args();
    args.list = true;
    let (text, exit) = printed(agent_ping_step(OutputFormat::Json, args, false));
    assert_eq!(exit, 0);
    assert!(text.contains("\"status\": \"success\""));
    assert!(text.contains("PostToolUse"));
    assert!(text.contains("Stop"));
    assert!(text.contains("SubagentStop"));
    assert!(text.contains("TaskCompleted"));
    assert!(text.contains("Notification"));
}

#[test]
fn test_agent_ping_list_human() {
    let mut args = base_args();
    args.list = true;
    let (text, exit) = printed(agent_ping_step(OutputFormat::Human, args, false));
    assert_eq!(exit, 0);
    assert!(text.contains("PostToolUse"));
    assert!(text.contains("Notification"));
    assert!(!text.contains("status"));
}

#[test]
fn test_agent_ping_dry_run() {
    let mut args = base_args();
    args.sound = Some("Stop".to_string());
    args.dry_run = true;
    let (text, exit) = printed(agent_ping_step(OutputFormat::Json, args, false));
    assert_eq!(exit, 0);
    assert!(text.contains("\"played\": false"));
    assert!(text.contains("Stop"));
}

#[test]
fn test_agent_ping_dry_run_freq() {
    let mut args = base_args();
    args.frequency = Some(440_000);
    args.dry_run = true;
    let (text, exit) = printed(agent_ping_step(OutputFormat::Json, args, false));
    assert_eq!(exit, 0);
    assert!(text.contains("\"played\": false"));
    assert!(text.contains("440"));
}

#[test]
fn test_agent_ping_dry_run_human() {
    let mut args = base_args();
    args.sound = Some("Stop".to_string());
    args.dry_run = true;
    let (text, _) = printed(agent_ping_step(OutputFormat::Human, args, false));
    assert!(text.contains("[dry-run] Would play: Stop"));
}

#[test]
fn test_agent_ping_unknown_preset() {
    let mut args = base_args();
    args.sound = Some("UnknownPreset".to_string());
    let (text, exit) = printed_error(agent_ping_step(OutputFormat::Json, args, false));
    assert_eq!(exit, 1);
    assert!(text.contains("UNKNOWN_PRESET"));
}

#[test]
fn test_agent_ping_missing_source() {
    let (text, exit) = printed_error(agent_ping_step(OutputFormat::Json, base_args(), false));
    assert_eq!(exit, 1);
    assert!(text.contains("MISSING_SOUND_SOURCE"));
}

#[test]
fn test_agent_ping_freq_low() {
    let mut args = base_args();
    args.frequency = Some(10_000);
    let (text, exit) = printed_error(agent_ping_step(OutputFormat::Json, args, false));
    assert_eq!(exit, 1);
    assert!(text.contains("INVALID_FREQUENCY"));
}

#[test]
fn test_agent_ping_freq_high() {
    let mut args = base_args();
    args.frequency = Some(25_000_000);
    let (text, exit) = printed_error(agent_ping_step(OutputFormat::Json, args, false));
    assert_eq!(exit, 1);
    assert!(text.contains("INVALID_FREQUENCY"));
}

#[test]
fn test_agent_ping_file_not_found() {
    let mut args = base_args();
    args.file = Some("nonexistent/path/sound.wav".to_string());
    let (text, exit) = printed_error(agent_ping_step(OutputFormat::Json, args, false));
    assert_eq!(exit, 1);
    assert!(text.contains("FILE_NOT_FOUND"));
}

#[test]
fn test_agent_ping_volume_range() {
    let mut args = base_args();
    args.sound = Some("Stop".to_string());
    args.volume = 1500;
    let (text, exit) = printed_error(agent_ping_step(OutputFormat::Json, args, false));
    assert_eq!(exit, 1);
    assert!(text.contains("INVALID_VOLUME"));
}

#[test]
fn test_agent_ping_case_insensitive() {
    let mut args = base_args();
    args.sound = Some("stop".to_string());
    args.dry_run = true;
    let (text, exit) = printed(agent_ping_step(OutputFormat::Json, args, false));
    assert_eq!(exit, 0);
    assert!(text.contains("\"played\": false"));
}

#[test]
fn all_presets_dry_run_any_case() {
    for name in ["PostToolUse", "STOP", "subagentstop", "TaskCompleted", "nOtIfIcAtIoN"] {
        let mut args = base_args();
        args.sound = Some(name.to_string());
        args.dry_run = true;
        let (text, exit) = printed(agent_ping_step(OutputFormat::Json, args, false));
        assert_eq!(exit, 0, "preset {name} should validate");
        assert!(text.contains("\"played\": false"));
        assert!(text.contains(name));
    }
}

#[test]
fn frequency_boundaries_inclusive() {
    for (milli_hz, ok) in [
        (20_000i64, true),
        (20_000_000, true),
        (19_999, false),
        (20_000_001, false),
    ] {
        let mut args = base_args();
        args.frequency = Some(milli_hz);
        args.dry_run = true;
        let d = agent_ping_step(OutputFormat::Json, args, false);
        match d {
            Directive::Print { exit, .. } => assert!(ok && exit == 0, "{milli_hz} unexpectedly ok"),
            Directive::PrintError { text, exit } => {
                assert!(!ok, "{milli_hz} unexpectedly failed: {text}");
                assert_eq!(exit, 1);
                assert!(text.contains("INVALID_FREQUENCY"));
            }
            Directive::Play { .. } => panic!("dry-run must not play"),
        }
    }
}

#[test]
fn volume_boundaries_inclusive() {
    for (milli, ok) in [(0i64, true), (1000, true), (-1, false), (1001, false)] {
        let mut args = base_args();
        args.sound = Some("Stop".to_string());
        args.volume = milli;
        args.dry_run = true;
        let d = agent_ping_step(OutputFormat::Json, args, false);
        match d {
            Directive::Print { exit, .. } => assert!(ok && exit == 0, "{milli} unexpectedly ok"),
            Directive::PrintError { text, exit } => {
                assert!(!ok, "{milli} unexpectedly failed: {text}");
                assert_eq!(exit, 1);
                assert!(text.contains("INVALID_VOLUME"));
            }
            Directive::Play { .. } => panic!("dry-run must not play"),
        }
    }
}

#[test]
fn validation_order_volume_before_preset() {
    let mut args = base_args();
    args.sound = Some("NoSuchPreset".to_string());
    args.volume = 1500;
    let (text, _) = printed_error(agent_ping_step(OutputFormat::Json, args, false));
    assert!(text.contains("INVALID_VOLUME"));
    assert!(!text.contains("UNKNOWN_PRESET"));
}

#[test]
fn play_directive_then_success_report() {
    let mut args = base_args();
    args.sound = Some("Stop".to_string());
    let d = agent_ping_step(OutputFormat::Human, args, false);
    let req = match d {
        Directive::Play { request } => request,
        _ => panic!("a valid non-dry-run request must be played"),
    };
    let (text, exit) = printed(report_play(OutputFormat::Human, &req, Ok(())));
    assert_eq!(exit, 0);
    assert_eq!(text, "Played: Stop");
}

#[test]
fn device_error_exits_with_code_two() {
    let mut args = base_args();
    args.frequency = Some(440_000);
    let d = agent_ping_step(OutputFormat::Json, args, false);
    let req = match d {
        Directive::Play { request } => request,
        _ => panic!("a valid non-dry-run request must be played"),
    };
    let outcome = Err(AgentPingError::AudioDeviceError("no output device".to_string()));
    let (text, exit) = printed_error(report_play(OutputFormat::Json, &req, outcome));
    assert_eq!(exit, 2);
    assert!(text.contains("AUDIO_DEVICE_ERROR"));
    assert!(text.contains("audio device error: no output device"));
}

#[test]
fn unsupported_format_exits_with_code_one() {
    let mut args = base_args();
    args.file = Some("clip.bin".to_string());
    let d = agent_ping_step(OutputFormat::Human, args, true);
    let req = match d {
        Directive::Play { request } => request,
        _ => panic!("an existing file must reach playback"),
    };
    let outcome = Err(AgentPingError::UnsupportedFormat("unrecognized container".to_string()));
    let (text, exit) = printed_error(report_play(OutputFormat::Human, &req, outcome));
    assert_eq!(exit, 1);
    assert!(text.contains("UNSUPPORTED_FORMAT"));
}
