//! The argument set: what the command line supplied, already materialized.
//!
//! The argument-parsing mechanism itself is an external collaborator; the
//! resolver only ever asks two questions of it — "is this presence flag
//! set" and "what is the raw text of this option" — so the whole set is
//! modeled as one record of booleans and optional raw strings, immutable
//! for the duration of a resolution pass. No flag carries a negated form:
//! presence only ever turns a setting on.

use vstd::prelude::*;

verus! {

/// One queryable snapshot of the command line.
///
/// A `bool` field is a presence switch; an `Option<String>` field is the
/// raw text of a value option, absent when the option was not given.
#[derive(Clone, Debug, Default)]
pub struct Arguments {
    pub autohide_time: bool,
    pub basic: bool,
    pub battery: bool,
    pub case_sensitive: bool,
    pub celsius: bool,
    pub current_usage: bool,
    pub disable_advanced_kill: bool,
    pub disable_click: bool,
    pub dot_marker: bool,
    pub fahrenheit: bool,
    pub group: bool,
    pub hide_avg_cpu: bool,
    pub hide_table_gap: bool,
    pub hide_time: bool,
    pub kelvin: bool,
    pub left_legend: bool,
    pub mem_as_value: bool,
    pub network_use_binary_prefix: bool,
    pub network_use_bytes: bool,
    pub network_use_log: bool,
    pub no_write: bool,
    pub process_command: bool,
    pub regex: bool,
    pub show_table_scroll_position: bool,
    pub tree: bool,
    pub use_old_network_legend: bool,
    pub whole_word: bool,
    pub color: Option<String>,
    pub default_time_value: Option<String>,
    pub default_widget_count: Option<String>,
    pub default_widget_type: Option<String>,
    pub rate: Option<String>,
    pub time_delta: Option<String>,
}

} // verus!
