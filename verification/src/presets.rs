//! The table of built-in notification sounds: five preset names, each
//! mapped to one of three bundled audio assets. Lookup is
//! case-insensitive (ASCII).

use vstd::prelude::*;
use crate::text::{lower_seq, str_eq, to_ascii_lower};

verus! {

/// One of the three bundled audio clips.
#[derive(Clone, Copy, Debug, PartialEq, Eq, Structural)]
pub enum Asset {
    Beep,
    MessageSent,
    Message,
}

/// The asset a lower-cased preset name stands for, if any.
pub open spec fn preset_of(low: Seq<char>) -> Option<Asset> {
    if low == "posttooluse"@ {
        Some(Asset::Beep)
    } else if low == "stop"@ {
        Some(Asset::MessageSent)
    } else if low == "subagentstop"@ {
        Some(Asset::MessageSent)
    } else if low == "taskcompleted"@ {
        Some(Asset::MessageSent)
    } else if low == "notification"@ {
        Some(Asset::Message)
    } else {
        None
    }
}

/// Whether a (lower-cased) name is a known preset.
pub open spec fn is_known_preset(low: Seq<char>) -> bool {
    preset_of(low) is Some
}

/// Looks a preset name up, ignoring ASCII case.
pub fn get_preset(name: &str) -> (r: Option<Asset>)
    ensures
        r == preset_of(lower_seq(name@)),
{
    let low = to_ascii_lower(name);
    if str_eq(low.as_str(), "posttooluse") {
        Some(Asset::Beep)
    } else if str_eq(low.as_str(), "stop") {
        Some(Asset::MessageSent)
    } else if str_eq(low.as_str(), "subagentstop") {
        Some(Asset::MessageSent)
    } else if str_eq(low.as_str(), "taskcompleted") {
        Some(Asset::MessageSent)
    } else if str_eq(low.as_str(), "notification") {
        Some(Asset::Message)
    } else {
        None
    }
}

/// The five preset names, in their canonical casing and order.
pub fn preset_names() -> (r: Vec<&'static str>)
    ensures
        r@.len() == 5,
        r@[0]@ == "PostToolUse"@,
        r@[1]@ == "Stop"@,
        r@[2]@ == "SubagentStop"@,
        r@[3]@ == "TaskCompleted"@,
        r@[4]@ == "Notification"@,
{
    let mut v: Vec<&'static str> = Vec::new();
    v.push("PostToolUse");
    v.push("Stop");
    v.push("SubagentStop");
    v.push("TaskCompleted");
    v.push("Notification");
    v
}

} // verus!
