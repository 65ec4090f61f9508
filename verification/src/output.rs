//! Rendering of results and errors into the two output formats: the
//! pretty-printed JSON envelope {status, data, metadata} and the short
//! human-readable sentences. Every renderer's output is pinned down,
//! character for character, over the views of its inputs; only the
//! timestamp inside the envelope comes from the clock.

use vstd::prelude::*;
use crate::errors::{code_spec, message_spec, AgentPingError, ErrorV};
use crate::request::{Request, RequestV, Source, SourceV};
use crate::text::{
    dec_seq, escape_json, i64_milli_to_dec, json_escaped, lower_seq, milli_seq, str_eq,
    to_ascii_lower, u64_to_dec,
};

verus! {

/// The two output formats.
#[derive(Clone, Copy, Debug, PartialEq, Eq, Structural)]
pub enum OutputFormat {
    Json,
    Human,
}

/// The format a lower-cased format name selects, if any.
pub open spec fn format_of(low: Seq<char>) -> Option<OutputFormat> {
    if low == "json"@ {
        Some(OutputFormat::Json)
    } else if low == "human"@ {
        Some(OutputFormat::Human)
    } else {
        None
    }
}

impl OutputFormat {
    /// Parses a format name, ignoring ASCII case; rejects anything but
    /// "json" and "human".
    pub fn from_str(s: &str) -> (r: Result<OutputFormat, String>)
        ensures
            match r {
                Ok(f) => format_of(lower_seq(s@)) == Some(f),
                Err(m) => {
                    &&& format_of(lower_seq(s@)) is None
                    &&& m@ == "Invalid format: "@ + s@ + ". Use 'json' or 'human'"@
                },
            },
    {
        let low = to_ascii_lower(s);
        if str_eq(low.as_str(), "json") {
            Ok(OutputFormat::Json)
        } else if str_eq(low.as_str(), "human") {
            Ok(OutputFormat::Human)
        } else {
            let mut m = "Invalid format: ".to_owned();
            m.append(s);
            m.append(". Use 'json' or 'human'");
            proof {
                assert(m@ =~= "Invalid format: "@ + s@ + ". Use 'json' or 'human'"@);
            }
            Err(m)
        }
    }
}

/// The whole JSON envelope, pretty-printed with two-space indent:
/// status, then the data payload (already rendered, at one level of
/// indent), then the metadata block. The timestamp is escaped; status
/// and tool name are fixed ASCII words supplied by the callers.
pub open spec fn envelope_json(
    status: Seq<char>,
    data: Seq<char>,
    tool: Seq<char>,
    ts: Seq<char>,
) -> Seq<char> {
    "{\n  \"status\": \""@ + status + "\",\n  \"data\": "@ + data
        + ",\n  \"metadata\": {\n    \"timestamp\": \""@ + json_escaped(ts)
        + "\",\n    \"tool\": \""@ + tool + "\",\n    \"version\": \"0.1.0\"\n  }\n}"@
}

/// Renders the envelope around an already-rendered data payload.
pub fn render_envelope(status: &str, data: &str, tool: &str, ts: &str) -> (r: String)
    ensures
        r@ == envelope_json(status@, data@, tool@, ts@),
{
    let mut s = "{\n  \"status\": \"".to_owned();
    s.append(status);
    s.append("\",\n  \"data\": ");
    s.append(data);
    s.append(",\n  \"metadata\": {\n    \"timestamp\": \"");
    let esc = escape_json(ts);
    s.append(esc.as_str());
    s.append("\",\n    \"tool\": \"");
    s.append(tool);
    s.append("\",\n    \"version\": \"0.1.0\"\n  }\n}");
    proof {
        assert(s@ =~= envelope_json(status@, data@, tool@, ts@));
    }
    s
}

/// The data payload of an error: its stable code and its message.
pub open spec fn error_data_json(e: ErrorV) -> Seq<char> {
    "{\n    \"code\": \""@ + code_spec(e) + "\",\n    \"message\": \""@ + json_escaped(
        message_spec(e),
    ) + "\"\n  }"@
}

/// The full JSON error envelope.
pub open spec fn error_json(e: ErrorV, ts: Seq<char>) -> Seq<char> {
    envelope_json("error"@, error_data_json(e), "agent-ping"@, ts)
}

/// The human-readable error line.
pub open spec fn human_error(e: ErrorV) -> Seq<char> {
    "Error ["@ + code_spec(e) + "]: "@ + message_spec(e)
}

/// Renders the JSON error envelope for a given timestamp.
pub fn render_error_json(e: &AgentPingError, ts: &str) -> (r: String)
    ensures
        r@ == error_json(e@, ts@),
{
    let mut data = "{\n    \"code\": \"".to_owned();
    data.append(e.code());
    data.append("\",\n    \"message\": \"");
    let msg = e.message();
    let esc = escape_json(msg.as_str());
    data.append(esc.as_str());
    data.append("\"\n  }");
    proof {
        assert(data@ =~= error_data_json(e@));
    }
    render_envelope("error", data.as_str(), "agent-ping", ts)
}

/// Renders the human-readable error line.
pub fn render_human_error(e: &AgentPingError) -> (r: String)
    ensures
        r@ == human_error(e@),
{
    let mut s = "Error [".to_owned();
    s.append(e.code());
    s.append("]: ");
    let msg = e.message();
    s.append(msg.as_str());
    proof {
        assert(s@ =~= human_error(e@));
    }
    s
}

/// The data payload of `--list`: the five preset names.
pub open spec fn list_data_json() -> Seq<char> {
    "{\n    \"presets\": [\n      \"PostToolUse\",\n      \"Stop\",\n      \"SubagentStop\",\n      \"TaskCompleted\",\n      \"Notification\"\n    ]\n  }"@
}

/// The full JSON `--list` envelope.
pub open spec fn list_json(ts: Seq<char>) -> Seq<char> {
    envelope_json("success"@, list_data_json(), "agent-ping"@, ts)
}

/// The human-readable `--list` text.
pub open spec fn human_list() -> Seq<char> {
    "Available presets:\n  PostToolUse\n  Stop\n  SubagentStop\n  TaskCompleted\n  Notification"@
}

/// Renders the JSON `--list` envelope for a given timestamp.
pub fn render_list_json(ts: &str) -> (r: String)
    ensures
        r@ == list_json(ts@),
{
    let data =
        "{\n    \"presets\": [\n      \"PostToolUse\",\n      \"Stop\",\n      \"SubagentStop\",\n      \"TaskCompleted\",\n      \"Notification\"\n    ]\n  }";
    render_envelope("success", data, "agent-ping", ts)
}

/// Renders the human-readable `--list` text.
pub fn render_human_list() -> (r: String)
    ensures
        r@ == human_list(),
{
    "Available presets:\n  PostToolUse\n  Stop\n  SubagentStop\n  TaskCompleted\n  Notification".to_owned()
}

/// The label under which a source is reported: the preset name as
/// given, "<f> Hz tone", or the file path.
pub open spec fn label_spec(s: SourceV) -> Seq<char> {
    match s {
        SourceV::Preset { name, .. } => name,
        SourceV::Tone { frequency, .. } => milli_seq(frequency, false) + " Hz tone"@,
        SourceV::File { path } => path,
    }
}

/// Renders a source's label.
pub fn render_label(s: &Source) -> (r: String)
    ensures
        r@ == label_spec(s@),
{
    match s {
        Source::Preset { name, .. } => name.clone(),
        Source::Tone { frequency, .. } => {
            let mut t = i64_milli_to_dec(*frequency, false);
            t.append(" Hz tone");
            t
        },
        Source::File { path } => path.clone(),
    }
}

/// The "details" object inside a play report, keys in alphabetical
/// order as the envelope serializer writes them.
pub open spec fn details_json(req: RequestV) -> Seq<char> {
    match req.source {
        SourceV::Preset { name, .. } => "{\n      \"repeat\": "@ + dec_seq(req.repeat as nat)
            + ",\n      \"sound\": \""@ + json_escaped(name) + "\",\n      \"volume\": "@
            + milli_seq(req.volume, true) + "\n    }"@,
        SourceV::Tone { frequency, duration } => "{\n      \"duration_ms\": "@ + dec_seq(
            duration as nat,
        ) + ",\n      \"frequency\": "@ + milli_seq(frequency, true) + ",\n      \"repeat\": "@
            + dec_seq(req.repeat as nat) + ",\n      \"volume\": "@ + milli_seq(req.volume, true)
            + "\n    }"@,
        SourceV::File { path } => "{\n      \"file\": \""@ + json_escaped(path)
            + "\",\n      \"repeat\": "@ + dec_seq(req.repeat as nat) + ",\n      \"volume\": "@
            + milli_seq(req.volume, true) + "\n    }"@,
    }
}

/// The data payload of a play report: details, whether anything was
/// actually played, and the source label.
pub open spec fn ping_data_json(req: RequestV, played: bool) -> Seq<char> {
    "{\n    \"details\": "@ + details_json(req) + ",\n    "@ + "\"played\": "@ + (if played {
        "true"@
    } else {
        "false"@
    }) + ",\n    \"sound\": \""@ + json_escaped(label_spec(req.source)) + "\"\n  }"@
}

/// The full JSON play-report envelope.
pub open spec fn ping_json(req: RequestV, played: bool, ts: Seq<char>) -> Seq<char> {
    envelope_json("success"@, ping_data_json(req, played), "agent-ping"@, ts)
}

/// Renders the JSON play-report envelope for a given timestamp.
pub fn render_ping_json(req: &Request, played: bool, ts: &str) -> (r: String)
    ensures
        r@ == ping_json(req@, played, ts@),
{
    let mut details: String;
    match &req.source {
        Source::Preset { name, .. } => {
            details = "{\n      \"repeat\": ".to_owned();
            let rep = u64_to_dec(req.repeat as u64);
            details.append(rep.as_str());
            details.append(",\n      \"sound\": \"");
            let esc = escape_json(name.as_str());
            details.append(esc.as_str());
            details.append("\",\n      \"volume\": ");
            let vol = i64_milli_to_dec(req.volume, true);
            details.append(vol.as_str());
            details.append("\n    }");
        },
        Source::Tone { frequency, duration } => {
            details = "{\n      \"duration_ms\": ".to_owned();
            let dur = u64_to_dec(*duration);
            details.append(dur.as_str());
            details.append(",\n      \"frequency\": ");
            let fr = i64_milli_to_dec(*frequency, true);
            details.append(fr.as_str());
            details.append(",\n      \"repeat\": ");
            let rep = u64_to_dec(req.repeat as u64);
            details.append(rep.as_str());
            details.append(",\n      \"volume\": ");
            let vol = i64_milli_to_dec(req.volume, true);
            details.append(vol.as_str());
            details.append("\n    }");
        },
        Source::File { path } => {
            details = "{\n      \"file\": \"".to_owned();
            let esc = escape_json(path.as_str());
            details.append(esc.as_str());
            details.append("\",\n      \"repeat\": ");
            let rep = u64_to_dec(req.repeat as u64);
            details.append(rep.as_str());
            details.append(",\n      \"volume\": ");
            let vol = i64_milli_to_dec(req.volume, true);
            details.append(vol.as_str());
            details.append("\n    }");
        },
    }
    proof {
        assert(details@ =~= details_json(req@));
    }
    let mut data = "{\n    \"details\": ".to_owned();
    data.append(details.as_str());
    data.append(",\n    ");
    data.append("\"played\": ");
    if played {
        data.append("true");
    } else {
        data.append("false");
    }
    data.append(",\n    \"sound\": \"");
    let label = render_label(&req.source);
    let esc = escape_json(label.as_str());
    data.append(esc.as_str());
    data.append("\"\n  }");
    proof {
        assert(data@ =~= ping_data_json(req@, played));
    }
    render_envelope("success", data.as_str(), "agent-ping", ts)
}

/// The human-readable dry-run line.
pub open spec fn human_dry_run(req: RequestV) -> Seq<char> {
    "[dry-run] Would play: "@ + label_spec(req.source)
}

/// Renders the human-readable dry-run line.
pub fn render_human_dry_run(req: &Request) -> (r: String)
    ensures
        r@ == human_dry_run(req@),
{
    let mut s = "[dry-run] Would play: ".to_owned();
    let label = render_label(&req.source);
    s.append(label.as_str());
    proof {
        assert(s@ =~= human_dry_run(req@));
    }
    s
}

/// The human-readable played line.
pub open spec fn human_played(req: RequestV) -> Seq<char> {
    "Played: "@ + label_spec(req.source)
}

/// Renders the human-readable played line.
pub fn render_human_played(req: &Request) -> (r: String)
    ensures
        r@ == human_played(req@),
{
    let mut s = "Played: ".to_owned();
    let label = render_label(&req.source);
    s.append(label.as_str());
    proof {
        assert(s@ =~= human_played(req@));
    }
    s
}

/// The greeting of the example command.
pub open spec fn greeting(name: Seq<char>) -> Seq<char> {
    "Hello, "@ + name + "!"@
}

/// The data payload of the example command.
pub open spec fn example_data_json(name: Seq<char>) -> Seq<char> {
    "{\n    \"message\": \""@ + json_escaped(greeting(name)) + "\"\n  }"@
}

/// The full JSON example envelope.
pub open spec fn example_json(name: Seq<char>, ts: Seq<char>) -> Seq<char> {
    envelope_json("success"@, example_data_json(name), "example"@, ts)
}

/// Renders the greeting itself.
pub fn render_greeting(name: &str) -> (r: String)
    ensures
        r@ == greeting(name@),
{
    let mut s = "Hello, ".to_owned();
    s.append(name);
    s.append("!");
    proof {
        assert(s@ =~= greeting(name@));
    }
    s
}

/// Renders the JSON example envelope for a given timestamp.
pub fn render_example_json(name: &str, ts: &str) -> (r: String)
    ensures
        r@ == example_json(name@, ts@),
{
    let mut data = "{\n    \"message\": \"".to_owned();
    let g = render_greeting(name);
    let esc = escape_json(g.as_str());
    data.append(esc.as_str());
    data.append("\"\n  }");
    proof {
        assert(data@ =~= example_data_json(name@));
    }
    render_envelope("success", data.as_str(), "example", ts)
}

/// Relies on chrono: `Utc::now().to_rfc3339()`, the current UTC time
/// in RFC 3339 form. Nothing is assumed of the text; every contract
/// downstream holds for an arbitrary timestamp.
#[verifier::external_body]
pub(crate) fn now_rfc3339() -> (r: String) {
    chrono::Utc::now().to_rfc3339()
}

} // verus!
