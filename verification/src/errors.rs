//! The error taxonomy: every failure the tool can report, each with a
//! stable machine-readable code, a message, and a process exit code.

use vstd::prelude::*;
use crate::text::milli_seq;
use crate::text::i64_milli_to_dec;

verus! {

/// Everything that can go wrong while validating or playing. The five
/// validation errors exit with code 1; an audio-device failure is an
/// environmental error and exits with code 2.
#[derive(Debug)]
pub enum AgentPingError {
    MissingSoundSource,
    UnknownPreset(String),
    InvalidFrequency(i64),
    InvalidVolume(i64),
    FileNotFound(String),
    UnsupportedFormat(String),
    AudioDeviceError(String),
}

/// The mathematical shape of an error: strings as character sequences,
/// thousandth-scaled numbers as integers.
pub enum ErrorV {
    MissingSoundSource,
    UnknownPreset(Seq<char>),
    InvalidFrequency(int),
    InvalidVolume(int),
    FileNotFound(Seq<char>),
    UnsupportedFormat(Seq<char>),
    AudioDeviceError(Seq<char>),
}

impl View for AgentPingError {
    type V = ErrorV;

    open spec fn view(&self) -> ErrorV {
        match self {
            AgentPingError::MissingSoundSource => ErrorV::MissingSoundSource,
            AgentPingError::UnknownPreset(n) => ErrorV::UnknownPreset(n@),
            AgentPingError::InvalidFrequency(f) => ErrorV::InvalidFrequency(*f as int),
            AgentPingError::InvalidVolume(v) => ErrorV::InvalidVolume(*v as int),
            AgentPingError::FileNotFound(p) => ErrorV::FileNotFound(p@),
            AgentPingError::UnsupportedFormat(m) => ErrorV::UnsupportedFormat(m@),
            AgentPingError::AudioDeviceError(m) => ErrorV::AudioDeviceError(m@),
        }
    }
}

/// The stable machine-readable code of each error.
pub open spec fn code_spec(e: ErrorV) -> Seq<char> {
    match e {
        ErrorV::MissingSoundSource => "MISSING_SOUND_SOURCE"@,
        ErrorV::UnknownPreset(_) => "UNKNOWN_PRESET"@,
        ErrorV::InvalidFrequency(_) => "INVALID_FREQUENCY"@,
        ErrorV::InvalidVolume(_) => "INVALID_VOLUME"@,
        ErrorV::FileNotFound(_) => "FILE_NOT_FOUND"@,
        ErrorV::UnsupportedFormat(_) => "UNSUPPORTED_FORMAT"@,
        ErrorV::AudioDeviceError(_) => "AUDIO_DEVICE_ERROR"@,
    }
}

/// The human-readable message of each error.
pub open spec fn message_spec(e: ErrorV) -> Seq<char> {
    match e {
        ErrorV::MissingSoundSource => "no sound source specified; use --sound, --frequency, or --file"@,
        ErrorV::UnknownPreset(n) => "unknown preset: "@ + n,
        ErrorV::InvalidFrequency(f) => "frequency must be between 20 and 20000 Hz, got "@
            + milli_seq(f, false),
        ErrorV::InvalidVolume(v) => "volume must be between 0.0 and 1.0, got "@ + milli_seq(
            v,
            false,
        ),
        ErrorV::FileNotFound(p) => "file not found: "@ + p,
        ErrorV::UnsupportedFormat(m) => "unsupported audio format: "@ + m,
        ErrorV::AudioDeviceError(m) => "audio device error: "@ + m,
    }
}

/// The process exit code of each error: 2 for an audio-device failure,
/// 1 for everything else.
pub open spec fn exit_code_spec(e: ErrorV) -> int {
    match e {
        ErrorV::AudioDeviceError(_) => 2,
        _ => 1,
    }
}

impl AgentPingError {
    /// The stable machine-readable code.
    pub fn code(&self) -> (r: &'static str)
        ensures
            r@ == code_spec(self@),
    {
        match self {
            AgentPingError::MissingSoundSource => "MISSING_SOUND_SOURCE",
            AgentPingError::UnknownPreset(_) => "UNKNOWN_PRESET",
            AgentPingError::InvalidFrequency(_) => "INVALID_FREQUENCY",
            AgentPingError::InvalidVolume(_) => "INVALID_VOLUME",
            AgentPingError::FileNotFound(_) => "FILE_NOT_FOUND",
            AgentPingError::UnsupportedFormat(_) => "UNSUPPORTED_FORMAT",
            AgentPingError::AudioDeviceError(_) => "AUDIO_DEVICE_ERROR",
        }
    }

    /// The human-readable message text.
    pub fn message(&self) -> (r: String)
        ensures
            r@ == message_spec(self@),
    {
        match self {
            AgentPingError::MissingSoundSource => "no sound source specified; use --sound, --frequency, or --file".to_owned(),
            AgentPingError::UnknownPreset(n) => {
                let mut s = "unknown preset: ".to_owned();
                s.append(n.as_str());
                s
            },
            AgentPingError::InvalidFrequency(f) => {
                let mut s = "frequency must be between 20 and 20000 Hz, got ".to_owned();
                let d = i64_milli_to_dec(*f, false);
                s.append(d.as_str());
                s
            },
            AgentPingError::InvalidVolume(v) => {
                let mut s = "volume must be between 0.0 and 1.0, got ".to_owned();
                let d = i64_milli_to_dec(*v, false);
                s.append(d.as_str());
                s
            },
            AgentPingError::FileNotFound(p) => {
                let mut s = "file not found: ".to_owned();
                s.append(p.as_str());
                s
            },
            AgentPingError::UnsupportedFormat(m) => {
                let mut s = "unsupported audio format: ".to_owned();
                s.append(m.as_str());
                s
            },
            AgentPingError::AudioDeviceError(m) => {
                let mut s = "audio device error: ".to_owned();
                s.append(m.as_str());
                s
            },
        }
    }

    /// The process exit code this error calls for.
    pub fn exit_code(&self) -> (r: u8)
        ensures
            r as int == exit_code_spec(self@),
    {
        match self {
            AgentPingError::AudioDeviceError(_) => 2,
            _ => 1,
        }
    }
}

} // verus!
