//! The library's laws: what one invocation does, stated over the
//! decision layer for every input and every timestamp, and proved.

use vstd::prelude::*;
use crate::dispatch::{report_spec, step_spec, DirectiveV};
use crate::errors::{code_spec, message_spec, ErrorV};
use crate::output::{
    error_json, greeting, human_dry_run, human_error, human_list, human_played, label_spec,
    list_json, ping_data_json, ping_json, OutputFormat,
};
use crate::presets::is_known_preset;
use crate::request::{validate_spec, ArgsV, RequestV, SourceV};
use crate::substr::{
    has_substring, lemma_no_substring_concat, lemma_small_chars_tu_free, lemma_tu_free_no_status,
    occurs_at, small_chars, tu_free,
};
use crate::text::{dec_seq, digit_char, frac_digits, json_escaped, lower_seq, milli_nonneg_seq,
    milli_seq};

verus! {

/// A dry-run of any known preset name, in any casing, succeeds: it
/// prints with exit code 0, the JSON report embeds the name as given
/// and says that nothing was played, and the human report names the
/// source after "[dry-run] Would play: ".
pub proof fn lemma_preset_dry_run(
    format: OutputFormat,
    a: ArgsV,
    file_exists: bool,
    ts: Seq<char>,
)
    requires
        !a.list,
        a.dry_run,
        a.sound is Some,
        is_known_preset(lower_seq(a.sound->Some_0)),
        a.file is None,
        a.frequency is None,
        0 <= a.volume <= 1000,
    ensures
        step_spec(format, a, file_exists, ts) matches DirectiveV::Print { text, exit } && {
            &&& exit == 0
            &&& (format is Json ==> exists|pre: Seq<char>, post: Seq<char>|
                text == pre + "\"played\": false"@ + post)
            &&& (format is Json ==> exists|pre: Seq<char>, post: Seq<char>|
                text == pre + json_escaped(a.sound->Some_0) + post)
            &&& (format is Human ==> text == "[dry-run] Would play: "@ + a.sound->Some_0)
        },
{
    let req = validate_spec(a, file_exists)->Ok_0;
    if format is Json {
        proof_played_false_embedded(req, ts);
        proof_name_embedded(req, ts, a.sound->Some_0);
    }
}

proof fn proof_played_false_embedded(req: RequestV, ts: Seq<char>)
    ensures
        exists|pre: Seq<char>, post: Seq<char>|
            ping_json(req, false, ts) == pre + "\"played\": false"@ + post,
{
    reveal_strlit("\"played\": false");
    reveal_strlit("\"played\": ");
    reveal_strlit("false");
    assert("\"played\": "@ + "false"@ =~= "\"played\": false"@);
    let data = ping_data_json(req, false);
    let dpre = "{\n    \"details\": "@ + crate::output::details_json(req) + ",\n    "@;
    let dpost = ",\n    \"sound\": \""@ + json_escaped(crate::output::label_spec(req.source))
        + "\"\n  }"@;
    assert(data =~= dpre + "\"played\": false"@ + dpost);
    let pre = "{\n  \"status\": \""@ + "success"@ + "\",\n  \"data\": "@ + dpre;
    let post = dpost + ",\n  \"metadata\": {\n    \"timestamp\": \""@ + json_escaped(ts)
        + "\",\n    \"tool\": \""@ + "agent-ping"@ + "\",\n    \"version\": \"0.1.0\"\n  }\n}"@;
    assert(ping_json(req, false, ts) =~= pre + "\"played\": false"@ + post);
}

proof fn proof_name_embedded(req: RequestV, ts: Seq<char>, name: Seq<char>)
    requires
        req.source matches SourceV::Preset { name: n, .. } && n == name,
    ensures
        exists|pre: Seq<char>, post: Seq<char>|
            ping_json(req, false, ts) == pre + json_escaped(name) + post,
{
    let details = crate::output::details_json(req);
    let ipre = "{\n      \"repeat\": "@ + crate::text::dec_seq(req.repeat as nat)
        + ",\n      \"sound\": \""@;
    let ipost = "\",\n      \"volume\": "@ + crate::text::milli_seq(req.volume, true) + "\n    }"@;
    assert(details =~= ipre + json_escaped(name) + ipost);
    let data = ping_data_json(req, false);
    let dpre = "{\n    \"details\": "@ + ipre;
    let dpost = ipost + ",\n    "@ + "\"played\": "@ + "false"@ + ",\n    \"sound\": \""@
        + json_escaped(crate::output::label_spec(req.source)) + "\"\n  }"@;
    assert(data =~= dpre + json_escaped(name) + dpost);
    let pre = "{\n  \"status\": \""@ + "success"@ + "\",\n  \"data\": "@ + dpre;
    let post = dpost + ",\n  \"metadata\": {\n    \"timestamp\": \""@ + json_escaped(ts)
        + "\",\n    \"tool\": \""@ + "agent-ping"@ + "\",\n    \"version\": \"0.1.0\"\n  }\n}"@;
    assert(ping_json(req, false, ts) =~= pre + json_escaped(name) + post);
}

/// `--list` short-circuits everything else and prints exactly the
/// five known preset names, in the selected format, with exit code 0.
pub proof fn lemma_list(format: OutputFormat, a: ArgsV, file_exists: bool, ts: Seq<char>)
    requires
        a.list,
    ensures
        step_spec(format, a, file_exists, ts) == (DirectiveV::Print {
            text: match format {
                OutputFormat::Json => list_json(ts),
                OutputFormat::Human => human_list(),
            },
            exit: 0,
        }),
{
}

/// Without any source flag, `agent-ping` fails with the
/// MISSING_SOUND_SOURCE error and exit code 1, whatever else is set.
pub proof fn lemma_missing_source(format: OutputFormat, a: ArgsV, file_exists: bool, ts: Seq<char>)
    requires
        !a.list,
        a.sound is None,
        a.file is None,
        a.frequency is None,
    ensures
        step_spec(format, a, file_exists, ts) == (DirectiveV::PrintError {
            text: match format {
                OutputFormat::Json => error_json(ErrorV::MissingSoundSource, ts),
                OutputFormat::Human => human_error(ErrorV::MissingSoundSource),
            },
            exit: 1,
        }),
{
}

/// A tone request succeeds in a dry-run exactly when the frequency
/// lies in [20, 20000] Hz, boundaries included; outside that band it
/// fails with INVALID_FREQUENCY and exit code 1.
pub proof fn lemma_frequency_band(format: OutputFormat, a: ArgsV, file_exists: bool, ts: Seq<char>)
    requires
        !a.list,
        a.dry_run,
        a.sound is None,
        a.file is None,
        a.frequency is Some,
        0 <= a.volume <= 1000,
    ensures
        20000 <= a.frequency->Some_0 <= 20000000 ==> (step_spec(format, a, file_exists, ts)
            matches DirectiveV::Print { exit, .. } && exit == 0),
        !(20000 <= a.frequency->Some_0 <= 20000000) ==> step_spec(format, a, file_exists, ts)
            == (DirectiveV::PrintError {
            text: match format {
                OutputFormat::Json => error_json(ErrorV::InvalidFrequency(a.frequency->Some_0), ts),
                OutputFormat::Human => human_error(ErrorV::InvalidFrequency(a.frequency->Some_0)),
            },
            exit: 1,
        }),
{
}

/// The volume must lie in [0, 1], boundaries included: outside it the
/// request fails with INVALID_VOLUME and exit code 1, before any other
/// source rule is judged; at 0 and at 1 a valid preset dry-run
/// succeeds.
pub proof fn lemma_volume_band(format: OutputFormat, a: ArgsV, file_exists: bool, ts: Seq<char>)
    requires
        !a.list,
        a.dry_run,
        a.sound is Some,
        a.file is None,
        a.frequency is None,
    ensures
        !(0 <= a.volume <= 1000) ==> step_spec(format, a, file_exists, ts)
            == (DirectiveV::PrintError {
            text: match format {
                OutputFormat::Json => error_json(ErrorV::InvalidVolume(a.volume), ts),
                OutputFormat::Human => human_error(ErrorV::InvalidVolume(a.volume)),
            },
            exit: 1,
        }),
        0 <= a.volume <= 1000 && is_known_preset(lower_seq(a.sound->Some_0)) ==> (step_spec(
            format,
            a,
            file_exists,
            ts,
        ) matches DirectiveV::Print { exit, .. } && exit == 0),
{
}

/// A file path that does not exist on disk fails with FILE_NOT_FOUND
/// and exit code 1.
pub proof fn lemma_file_not_found(format: OutputFormat, a: ArgsV, ts: Seq<char>)
    requires
        !a.list,
        a.sound is None,
        a.frequency is None,
        a.file is Some,
        0 <= a.volume <= 1000,
    ensures
        step_spec(format, a, false, ts) == (DirectiveV::PrintError {
            text: match format {
                OutputFormat::Json => error_json(ErrorV::FileNotFound(a.file->Some_0), ts),
                OutputFormat::Human => human_error(ErrorV::FileNotFound(a.file->Some_0)),
            },
            exit: 1,
        }),
{
}

/// A preset name that matches no known preset, even case-folded,
/// fails with UNKNOWN_PRESET and exit code 1.
pub proof fn lemma_unknown_preset(format: OutputFormat, a: ArgsV, file_exists: bool, ts: Seq<char>)
    requires
        !a.list,
        a.sound is Some,
        !is_known_preset(lower_seq(a.sound->Some_0)),
        0 <= a.volume <= 1000,
        a.frequency is Some ==> 20000 <= a.frequency->Some_0 <= 20000000,
    ensures
        step_spec(format, a, file_exists, ts) == (DirectiveV::PrintError {
            text: match format {
                OutputFormat::Json => error_json(ErrorV::UnknownPreset(a.sound->Some_0), ts),
                OutputFormat::Human => human_error(ErrorV::UnknownPreset(a.sound->Some_0)),
            },
            exit: 1,
        }),
{
}

/// The human-readable `--list` text never contains the word "status"
/// that every JSON envelope carries.
pub proof fn lemma_human_list_no_status()
    ensures
        !has_substring(human_list(), "status"@),
{
    reveal_strlit(
        "Available presets:\n  PostToolUse\n  Stop\n  SubagentStop\n  TaskCompleted\n  Notification",
    );
    assert(tu_free(human_list()));
    lemma_tu_free_no_status(human_list());
}

proof fn lemma_status_low_char(c: char)
    requires
        (c as u32) < 97,
    ensures
        !"status"@.contains(c),
{
    reveal_strlit("status");
    assert forall|k: int| 0 <= k < "status"@.len() implies "status"@[k] != c by {
        assert(('s' as u32) == 115 && ('t' as u32) == 116 && ('a' as u32) == 97 && ('u' as u32)
            == 117);
    }
}

proof fn lemma_dec_seq_small(n: nat)
    ensures
        small_chars(dec_seq(n)),
    decreases n,
{
    if n < 10 {
        assert(small_chars(dec_seq(n)));
    } else {
        lemma_dec_seq_small(n / 10);
        let h = dec_seq(n);
        let a = dec_seq(n / 10);
        assert forall|i: int| 0 <= i < h.len() implies #[trigger] (h[i] as u32) < 58 by {
            if i < a.len() {
                assert(h[i] == a[i]);
            } else {
                assert(h[i] == digit_char((n % 10) as int));
            }
        }
    }
}

proof fn lemma_milli_small(m: int, json: bool)
    ensures
        small_chars(milli_seq(m, json)),
{
    let mag = if m < 0 {
        -m
    } else {
        m
    };
    lemma_dec_seq_small((mag / 1000) as nat);
    assert(('-' as u32) == 45 && ('.' as u32) == 46 && ('0' as u32) == 48);
    let h = milli_seq(m, json);
    assert forall|i: int| 0 <= i < h.len() implies #[trigger] (h[i] as u32) < 58 by {
        let body = milli_nonneg_seq(mag, json);
        let whole = dec_seq((mag / 1000) as nat);
        let j = if m < 0 {
            i - 1
        } else {
            i
        };
        if m < 0 && i == 0 {
            assert(h[i] == '-');
        } else {
            assert(h[i] == body[j]);
            if j < whole.len() {
                assert(body[j] == whole[j]);
            } else if mag % 1000 == 0 {
                assert(json);
                assert(body[j] == (whole + seq!['.', '0'])[j]);
            } else {
                let fr = frac_digits(mag % 1000);
                assert(body[j] == (whole + seq!['.'] + fr)[j]);
                if j > whole.len() {
                    assert((whole + seq!['.'] + fr)[j] == fr[j - whole.len() - 1]);
                }
            }
        }
    }
}

proof fn lemma_milli_no_status(m: int, json: bool)
    ensures
        !has_substring(milli_seq(m, json), "status"@),
{
    reveal_strlit("status");
    lemma_milli_small(m, json);
    lemma_small_chars_tu_free(milli_seq(m, json));
    lemma_tu_free_no_status(milli_seq(m, json));
}

/// Which user-supplied text a source embeds: for the law below it must
/// itself avoid the word "status".
pub open spec fn source_text_clean(src: SourceV) -> bool {
    match src {
        SourceV::Preset { name, .. } => !has_substring(name, "status"@),
        SourceV::File { path } => !has_substring(path, "status"@),
        SourceV::Tone { .. } => true,
    }
}

proof fn lemma_label_no_status(src: SourceV)
    requires
        source_text_clean(src),
    ensures
        !has_substring(label_spec(src), "status"@),
{
    reveal_strlit("status");
    match src {
        SourceV::Tone { frequency, .. } => {
            lemma_milli_no_status(frequency, false);
            reveal_strlit(" Hz tone");
            assert(tu_free(" Hz tone"@));
            lemma_tu_free_no_status(" Hz tone"@);
            lemma_status_low_char(' ');
            assert(" Hz tone"@.first() == ' ');
            lemma_no_substring_concat(milli_seq(frequency, false), " Hz tone"@, "status"@);
        },
        _ => {},
    }
}

/// Which user-supplied text an error embeds.
pub open spec fn error_text_clean(e: ErrorV) -> bool {
    match e {
        ErrorV::UnknownPreset(n) => !has_substring(n, "status"@),
        ErrorV::FileNotFound(p) => !has_substring(p, "status"@),
        ErrorV::UnsupportedFormat(m) => !has_substring(m, "status"@),
        ErrorV::AudioDeviceError(m) => !has_substring(m, "status"@),
        _ => true,
    }
}

proof fn lemma_message_no_status(e: ErrorV)
    requires
        error_text_clean(e),
    ensures
        !has_substring(message_spec(e), "status"@),
{
    reveal_strlit("status");
    lemma_status_low_char(' ');
    match e {
        ErrorV::MissingSoundSource => {
            reveal_strlit("no sound source specified; use --sound, --frequency, or --file");
            assert(tu_free(message_spec(e)));
            lemma_tu_free_no_status(message_spec(e));
        },
        ErrorV::UnknownPreset(n) => {
            reveal_strlit("unknown preset: ");
            assert(tu_free("unknown preset: "@));
            lemma_tu_free_no_status("unknown preset: "@);
            assert("unknown preset: "@.last() == ' ');
            lemma_no_substring_concat("unknown preset: "@, n, "status"@);
        },
        ErrorV::InvalidFrequency(f) => {
            reveal_strlit("frequency must be between 20 and 20000 Hz, got ");
            assert(tu_free("frequency must be between 20 and 20000 Hz, got "@));
            lemma_tu_free_no_status("frequency must be between 20 and 20000 Hz, got "@);
            lemma_milli_no_status(f, false);
            assert("frequency must be between 20 and 20000 Hz, got "@.last() == ' ');
            lemma_no_substring_concat(
                "frequency must be between 20 and 20000 Hz, got "@,
                milli_seq(f, false),
                "status"@,
            );
        },
        ErrorV::InvalidVolume(v) => {
            reveal_strlit("volume must be between 0.0 and 1.0, got ");
            assert(tu_free("volume must be between 0.0 and 1.0, got "@));
            lemma_tu_free_no_status("volume must be between 0.0 and 1.0, got "@);
            lemma_milli_no_status(v, false);
            assert("volume must be between 0.0 and 1.0, got "@.last() == ' ');
            lemma_no_substring_concat(
                "volume must be between 0.0 and 1.0, got "@,
                milli_seq(v, false),
                "status"@,
            );
        },
        ErrorV::FileNotFound(p) => {
            reveal_strlit("file not found: ");
            assert(tu_free("file not found: "@));
            lemma_tu_free_no_status("file not found: "@);
            assert("file not found: "@.last() == ' ');
            lemma_no_substring_concat("file not found: "@, p, "status"@);
        },
        ErrorV::UnsupportedFormat(m) => {
            reveal_strlit("unsupported audio format: ");
            assert(tu_free("unsupported audio format: "@));
            lemma_tu_free_no_status("unsupported audio format: "@);
            assert("unsupported audio format: "@.last() == ' ');
            lemma_no_substring_concat("unsupported audio format: "@, m, "status"@);
        },
        ErrorV::AudioDeviceError(m) => {
            reveal_strlit("audio device error: ");
            assert(tu_free("audio device error: "@));
            lemma_tu_free_no_status("audio device error: "@);
            assert("audio device error: "@.last() == ' ');
            lemma_no_substring_concat("audio device error: "@, m, "status"@);
        },
    }
}

/// The human-readable error line never contains the word "status",
/// as long as the user-supplied text inside the message avoids it.
pub proof fn lemma_human_error_no_status(e: ErrorV)
    requires
        error_text_clean(e),
    ensures
        !has_substring(human_error(e), "status"@),
{
    reveal_strlit("status");
    reveal_strlit("Error [");
    assert(tu_free("Error ["@));
    lemma_tu_free_no_status("Error ["@);
    let code = code_spec(e);
    match e {
        ErrorV::MissingSoundSource => {
            reveal_strlit("MISSING_SOUND_SOURCE");
            assert(tu_free(code));
        },
        ErrorV::UnknownPreset(_) => {
            reveal_strlit("UNKNOWN_PRESET");
            assert(tu_free(code));
        },
        ErrorV::InvalidFrequency(_) => {
            reveal_strlit("INVALID_FREQUENCY");
            assert(tu_free(code));
        },
        ErrorV::InvalidVolume(_) => {
            reveal_strlit("INVALID_VOLUME");
            assert(tu_free(code));
        },
        ErrorV::FileNotFound(_) => {
            reveal_strlit("FILE_NOT_FOUND");
            assert(tu_free(code));
        },
        ErrorV::UnsupportedFormat(_) => {
            reveal_strlit("UNSUPPORTED_FORMAT");
            assert(tu_free(code));
        },
        ErrorV::AudioDeviceError(_) => {
            reveal_strlit("AUDIO_DEVICE_ERROR");
            assert(tu_free(code));
        },
    }
    lemma_tu_free_no_status(code);
    lemma_status_low_char('[');
    assert("Error ["@.last() == '[');
    lemma_no_substring_concat("Error ["@, code, "status"@);
    reveal_strlit("]: ");
    assert(tu_free("]: "@));
    lemma_tu_free_no_status("]: "@);
    lemma_status_low_char(']');
    assert("]: "@.first() == ']');
    lemma_no_substring_concat("Error ["@ + code, "]: "@, "status"@);
    lemma_message_no_status(e);
    lemma_status_low_char(' ');
    assert(("Error ["@ + code + "]: "@).last() == ' ');
    lemma_no_substring_concat("Error ["@ + code + "]: "@, message_spec(e), "status"@);
}

/// The human-readable dry-run line never contains the word "status",
/// as long as the source's own text avoids it.
pub proof fn lemma_human_dry_run_no_status(req: RequestV)
    requires
        source_text_clean(req.source),
    ensures
        !has_substring(human_dry_run(req), "status"@),
{
    reveal_strlit("status");
    reveal_strlit("[dry-run] Would play: ");
    assert(tu_free("[dry-run] Would play: "@));
    lemma_tu_free_no_status("[dry-run] Would play: "@);
    lemma_label_no_status(req.source);
    lemma_status_low_char(' ');
    assert("[dry-run] Would play: "@.last() == ' ');
    lemma_no_substring_concat("[dry-run] Would play: "@, label_spec(req.source), "status"@);
}

/// The human-readable played line never contains the word "status",
/// as long as the source's own text avoids it.
pub proof fn lemma_human_played_no_status(req: RequestV)
    requires
        source_text_clean(req.source),
    ensures
        !has_substring(human_played(req), "status"@),
{
    reveal_strlit("status");
    reveal_strlit("Played: ");
    assert(tu_free("Played: "@));
    lemma_tu_free_no_status("Played: "@);
    lemma_label_no_status(req.source);
    lemma_status_low_char(' ');
    assert("Played: "@.last() == ' ');
    lemma_no_substring_concat("Played: "@, label_spec(req.source), "status"@);
}

/// The human-readable greeting never contains the word "status", as
/// long as the name itself avoids it.
pub proof fn lemma_greeting_no_status(name: Seq<char>)
    requires
        !has_substring(name, "status"@),
    ensures
        !has_substring(greeting(name), "status"@),
{
    reveal_strlit("status");
    reveal_strlit("Hello, ");
    assert(tu_free("Hello, "@));
    lemma_tu_free_no_status("Hello, "@);
    lemma_status_low_char(' ');
    assert("Hello, "@.last() == ' ');
    lemma_no_substring_concat("Hello, "@, name, "status"@);
    reveal_strlit("!");
    assert(!has_substring("!"@, "status"@)) by {
        reveal_strlit("status");
        assert forall|i: int| !occurs_at("!"@, "status"@, i) by {}
    }
    lemma_status_low_char('!');
    assert("!"@.first() == '!');
    lemma_no_substring_concat("Hello, "@ + name, "!"@, "status"@);
}

/// In human format, whatever one `agent-ping` step prints is free of
/// the word "status" that marks the JSON envelopes — for every input
/// whose own strings (preset name, file path) avoid that word.
pub proof fn lemma_human_step_no_status(a: ArgsV, file_exists: bool, ts: Seq<char>)
    requires
        a.sound matches Some(n) ==> !has_substring(n, "status"@),
        a.file matches Some(p) ==> !has_substring(p, "status"@),
    ensures
        match step_spec(OutputFormat::Human, a, file_exists, ts) {
            DirectiveV::Print { text, .. } => !has_substring(text, "status"@),
            DirectiveV::PrintError { text, .. } => !has_substring(text, "status"@),
            DirectiveV::Play { .. } => true,
        },
{
    if a.list {
        lemma_human_list_no_status();
    } else {
        match validate_spec(a, file_exists) {
            Err(e) => {
                lemma_human_error_no_status(e);
            },
            Ok(req) => {
                if a.dry_run {
                    lemma_human_dry_run_no_status(req);
                }
            },
        }
    }
}

/// In human format, the example command's greeting is free of the
/// word "status" — for every name that avoids the word itself, and
/// for the default name.
pub proof fn lemma_human_example_no_status(name: Option<Seq<char>>, ts: Seq<char>)
    requires
        name matches Some(n) ==> !has_substring(n, "status"@),
    ensures
        match crate::dispatch::example_spec(OutputFormat::Human, name, ts) {
            DirectiveV::Print { text, .. } => !has_substring(text, "status"@),
            _ => true,
        },
{
    match name {
        Some(n) => {
            lemma_greeting_no_status(n);
        },
        None => {
            reveal_strlit("World");
            reveal_strlit("status");
            assert(tu_free("World"@));
            lemma_tu_free_no_status("World"@);
            lemma_greeting_no_status("World"@);
        },
    }
}

/// In human format, whatever the report after a play attempt prints
/// is free of the word "status" — for every outcome whose own strings
/// avoid that word.
pub proof fn lemma_human_report_no_status(
    req: RequestV,
    outcome: Result<(), ErrorV>,
    ts: Seq<char>,
)
    requires
        source_text_clean(req.source),
        outcome matches Err(e) ==> error_text_clean(e),
    ensures
        match report_spec(OutputFormat::Human, req, outcome, ts) {
            DirectiveV::Print { text, .. } => !has_substring(text, "status"@),
            DirectiveV::PrintError { text, .. } => !has_substring(text, "status"@),
            DirectiveV::Play { .. } => true,
        },
{
    match outcome {
        Ok(_) => {
            lemma_human_played_no_status(req);
        },
        Err(e) => {
            lemma_human_error_no_status(e);
        },
    }
}

} // verus!
