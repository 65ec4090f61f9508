//! Raw command-line fields, their validation, and the validated
//! request. Validation runs the rules in a fixed order and fails fast:
//! a source must be present, volume and frequency must lie in range,
//! a preset name must be known, a file must exist.
//!
//! Fractional command-line values (volume, frequency) are held in
//! thousandths, so a volume of 0.5 is 500 and the frequency band
//! 20..20000 Hz is 20_000..20_000_000.

use vstd::prelude::*;
use crate::errors::{AgentPingError, ErrorV};
use crate::presets::{get_preset, is_known_preset, preset_of, Asset};
use crate::text::lower_seq;

verus! {

/// The raw fields of an `agent-ping` invocation, as parsed from the
/// command line.
pub struct AgentPingArgs {
    pub sound: Option<String>,
    pub file: Option<String>,
    /// Tone frequency in thousandths of Hz.
    pub frequency: Option<i64>,
    /// Tone duration in milliseconds.
    pub duration: u64,
    /// Volume in thousandths; valid from 0 to 1000.
    pub volume: i64,
    pub repeat: u32,
    /// Gap between repeats in milliseconds.
    pub interval: u64,
    pub list: bool,
    pub dry_run: bool,
}

/// The mathematical shape of the raw fields.
pub struct ArgsV {
    pub sound: Option<Seq<char>>,
    pub file: Option<Seq<char>>,
    pub frequency: Option<int>,
    pub duration: int,
    pub volume: int,
    pub repeat: int,
    pub interval: int,
    pub list: bool,
    pub dry_run: bool,
}

impl View for AgentPingArgs {
    type V = ArgsV;

    open spec fn view(&self) -> ArgsV {
        ArgsV {
            sound: match self.sound {
                Some(ref s) => Some(s@),
                None => None,
            },
            file: match self.file {
                Some(ref s) => Some(s@),
                None => None,
            },
            frequency: match self.frequency {
                Some(f) => Some(f as int),
                None => None,
            },
            duration: self.duration as int,
            volume: self.volume as int,
            repeat: self.repeat as int,
            interval: self.interval as int,
            list: self.list,
            dry_run: self.dry_run,
        }
    }
}

/// The one sound source of a validated request: exactly one of a
/// preset, a generated tone, or an audio file.
pub enum Source {
    Preset { name: String, asset: Asset },
    Tone { frequency: i64, duration: u64 },
    File { path: String },
}

/// The mathematical shape of a source.
pub enum SourceV {
    Preset { name: Seq<char>, asset: Asset },
    Tone { frequency: int, duration: int },
    File { path: Seq<char> },
}

impl View for Source {
    type V = SourceV;

    open spec fn view(&self) -> SourceV {
        match self {
            Source::Preset { name, asset } => SourceV::Preset { name: name@, asset: *asset },
            Source::Tone { frequency, duration } => SourceV::Tone {
                frequency: *frequency as int,
                duration: *duration as int,
            },
            Source::File { path } => SourceV::File { path: path@ },
        }
    }
}

/// A validated, playable request.
pub struct Request {
    pub source: Source,
    /// Volume in thousandths, 0 to 1000.
    pub volume: i64,
    pub repeat: u32,
    /// Gap between repeats in milliseconds.
    pub interval: u64,
}

/// The mathematical shape of a validated request.
pub struct RequestV {
    pub source: SourceV,
    pub volume: int,
    pub repeat: int,
    pub interval: int,
}

impl View for Request {
    type V = RequestV;

    open spec fn view(&self) -> RequestV {
        RequestV {
            source: self.source@,
            volume: self.volume as int,
            repeat: self.repeat as int,
            interval: self.interval as int,
        }
    }
}

/// Whether any of the three source flags is present.
pub open spec fn has_source(a: ArgsV) -> bool {
    a.sound is Some || a.file is Some || a.frequency is Some
}

/// Which source a fully valid set of fields selects: a preset first,
/// then a tone, then a file.
pub open spec fn source_spec(a: ArgsV) -> SourceV {
    if a.sound is Some {
        SourceV::Preset {
            name: a.sound->Some_0,
            asset: preset_of(lower_seq(a.sound->Some_0))->Some_0,
        }
    } else if a.frequency is Some {
        SourceV::Tone { frequency: a.frequency->Some_0, duration: a.duration }
    } else {
        SourceV::File { path: a.file->Some_0 }
    }
}

/// What validation returns, rule by rule in order: missing source,
/// volume out of [0, 1], frequency out of [20, 20000] Hz, unknown
/// preset, missing file; otherwise the validated request.
pub open spec fn validate_spec(a: ArgsV, file_exists: bool) -> Result<RequestV, ErrorV> {
    if !has_source(a) {
        Err(ErrorV::MissingSoundSource)
    } else if !(0 <= a.volume && a.volume <= 1000) {
        Err(ErrorV::InvalidVolume(a.volume))
    } else if a.frequency is Some && !(20000 <= a.frequency->Some_0 && a.frequency->Some_0
        <= 20000000) {
        Err(ErrorV::InvalidFrequency(a.frequency->Some_0))
    } else if a.sound is Some && !is_known_preset(lower_seq(a.sound->Some_0)) {
        Err(ErrorV::UnknownPreset(a.sound->Some_0))
    } else if a.file is Some && !file_exists {
        Err(ErrorV::FileNotFound(a.file->Some_0))
    } else {
        Ok(
            RequestV {
                source: source_spec(a),
                volume: a.volume,
                repeat: a.repeat,
                interval: a.interval,
            },
        )
    }
}

/// Validates the raw fields. `file_exists` says whether the path under
/// `--file`, if any, exists on disk at validation time; the caller
/// checks the disk, this function decides.
pub fn validate(args: AgentPingArgs, file_exists: bool) -> (r: Result<Request, AgentPingError>)
    ensures
        match r {
            Ok(req) => validate_spec(args@, file_exists) == Ok::<RequestV, ErrorV>(req@),
            Err(e) => validate_spec(args@, file_exists) == Err::<RequestV, ErrorV>(e@),
        },
{
    let AgentPingArgs { sound, file, frequency, duration, volume, repeat, interval, .. } = args;
    if sound.is_none() && file.is_none() && frequency.is_none() {
        return Err(AgentPingError::MissingSoundSource);
    }
    if !(0 <= volume && volume <= 1000) {
        return Err(AgentPingError::InvalidVolume(volume));
    }
    if let Some(f) = frequency {
        if !(20000 <= f && f <= 20000000) {
            return Err(AgentPingError::InvalidFrequency(f));
        }
    }
    let mut asset: Option<Asset> = None;
    match &sound {
        Some(name) => {
            match get_preset(name.as_str()) {
                Some(a) => {
                    asset = Some(a);
                },
                None => {
                    return Err(AgentPingError::UnknownPreset(name.clone()));
                },
            }
        },
        None => {},
    }
    match &file {
        Some(path) => {
            if !file_exists {
                return Err(AgentPingError::FileNotFound(path.clone()));
            }
        },
        None => {},
    }
    let source: Source = if let Some(name) = sound {
        Source::Preset { name, asset: asset.unwrap() }
    } else if let Some(f) = frequency {
        Source::Tone { frequency: f, duration }
    } else {
        Source::File { path: file.unwrap() }
    };
    Ok(Request { source, volume, repeat, interval })
}

} // verus!
