//! The text of the settings and runtime-plugin overlays.

use vstd::prelude::*;
use crate::aurelia::{PluginStatusJson, SteamRuntimeStatusJson};
use crate::text::{concat, owned};

verus! {

/// An optional setting as shown: its value, or a dash when unset or empty.
pub fn opt(value: &Option<String>) -> (s: String)
    ensures
        s@ == (match value {
            Some(v) => if v@.len() > 0 { v@ } else { "\u{2014}"@ },
            None => "\u{2014}"@,
        }),
{
    match value {
        Some(v) => if v.as_str().unicode_len() > 0 { owned(v.as_str()) } else { owned("\u{2014}") },
        None => owned("\u{2014}"),
    }
}

/// A flag as shown: `on` or `off`.
pub fn yes_no(value: bool) -> (s: String)
    ensures
        s@ == (if value { "on"@ } else { "off"@ }),
{
    if value { owned("on") } else { owned("off") }
}

/// The one-line status of a runtime plugin.
pub open spec fn plugin_desc_spec(status: Option<PluginStatusJson>) -> Seq<char> {
    match status {
        None => "status unavailable"@,
        Some(s) => (if s.enabled { "enabled"@ } else { "disabled"@ }) + match s.installed {
            Some(inst) => " \u{b7} installed "@ + inst.version@,
            None => " \u{b7} not installed"@,
        },
    }
}

pub fn plugin_desc(status: Option<&PluginStatusJson>) -> (s: String)
    ensures
        s@ == plugin_desc_spec(match status { Some(p) => Some(*p), None => None }),
{
    match status {
        None => owned("status unavailable"),
        Some(p) => {
            let enabled = if p.enabled { "enabled" } else { "disabled" };
            match &p.installed {
                Some(inst) => {
                    let a = concat(enabled, " \u{b7} installed ");
                    concat(a.as_str(), inst.version.as_str())
                },
                None => concat(enabled, " \u{b7} not installed"),
            }
        },
    }
}

/// The one-line status of the Steam Linux Runtime.
pub open spec fn steam_runtime_desc_spec(status: Option<SteamRuntimeStatusJson>) -> Seq<char> {
    match status {
        None => "status unavailable"@,
        Some(s) => s.layout_kind@ + " \u{b7} steam "@ + (if s.steam_exe_present { "present"@ } else { "missing"@ }),
    }
}

pub fn steam_runtime_desc(status: Option<&SteamRuntimeStatusJson>) -> (s: String)
    ensures
        s@ == steam_runtime_desc_spec(match status { Some(p) => Some(*p), None => None }),
{
    match status {
        None => owned("status unavailable"),
        Some(r) => {
            let a = concat(r.layout_kind.as_str(), " \u{b7} steam ");
            concat(a.as_str(), if r.steam_exe_present { "present" } else { "missing" })
        },
    }
}

} // verus!
