//! The configuration document: a nested, partially populated record.
//!
//! Every field is optional, and absence is distinct from a false or zero
//! value — the precedence chain must know whether the document spoke at
//! all. Missing sub-sections mean "use the defaults for everything in
//! this sub-section".

use vstd::prelude::*;
use vstd::std_specs::iter::IteratorSpec;
use std::collections::HashMap;

verus! {

broadcast use vstd::std_specs::hash::group_hash_axioms;

/// The whole persisted document: one optional sub-section of flag
/// overrides, one of color overrides, a layout tree, and up to four named
/// ignore-list specifications.
#[derive(Clone, Debug, Default)]
pub struct Config {
    pub flags: Option<ConfigFlags>,
    pub colors: Option<ConfigColors>,
    pub layout: Option<BottomLayout>,
    pub disk_filter: Option<IgnoreList>,
    pub mount_filter: Option<IgnoreList>,
    pub temp_filter: Option<IgnoreList>,
    pub net_filter: Option<IgnoreList>,
}

/// The document's flag overrides: one optional field per setting.
///
/// "Show average CPU" defaults to on, so the document stores it inverted
/// as `hide_avg_cpu`, keeping the default representable as absence.
#[derive(Clone, Debug, Default)]
pub struct ConfigFlags {
    pub hide_avg_cpu: Option<bool>,
    pub dot_marker: Option<bool>,
    pub temperature_type: Option<String>,
    pub rate: Option<u64>,
    pub left_legend: Option<bool>,
    pub current_usage: Option<bool>,
    pub group_processes: Option<bool>,
    pub case_sensitive: Option<bool>,
    pub whole_word: Option<bool>,
    pub regex: Option<bool>,
    pub basic: Option<bool>,
    pub default_time_value: Option<u64>,
    pub time_delta: Option<u64>,
    pub autohide_time: Option<bool>,
    pub hide_time: Option<bool>,
    pub default_widget_type: Option<String>,
    pub default_widget_count: Option<u64>,
    pub use_old_network_legend: Option<bool>,
    pub hide_table_gap: Option<bool>,
    pub battery: Option<bool>,
    pub disable_click: Option<bool>,
    pub no_write: Option<bool>,
    pub color: Option<String>,
    pub search_case_enabled_widgets: Option<Vec<WidgetIdEnabled>>,
    pub search_whole_word_enabled_widgets: Option<Vec<WidgetIdEnabled>>,
    pub search_regex_enabled_widgets: Option<Vec<WidgetIdEnabled>>,
    pub mem_as_value: Option<bool>,
    pub tree: Option<bool>,
    pub show_table_scroll_position: Option<bool>,
    pub process_command: Option<bool>,
    pub disable_advanced_kill: Option<bool>,
    pub network_use_bytes: Option<bool>,
    pub network_use_log: Option<bool>,
    pub network_use_binary_prefix: Option<bool>,
}

/// A persisted (widget identifier, enabled) pair: the serialization-
/// friendly substitute for one entry of the per-widget search-state
/// mapping.
#[derive(Clone, Copy, Debug, PartialEq, Eq, Structural)]
pub struct WidgetIdEnabled {
    pub id: u64,
    pub enabled: bool,
}

impl WidgetIdEnabled {
    /// Flattens a per-widget boolean mapping into pairs, one per entry,
    /// in no promised order.
    pub fn create_from_hashmap(hashmap: &HashMap<u64, bool>) -> (r: Vec<WidgetIdEnabled>)
        ensures
            r@.len() == hashmap@.dom().len(),
            forall|i: int|
                0 <= i < r@.len() ==> hashmap@.contains_key(#[trigger] r@[i].id)
                    && hashmap@[r@[i].id] == r@[i].enabled,
            forall|k: u64|
                #[trigger] hashmap@.contains_key(k) ==> exists|i: int|
                    0 <= i < r@.len() && #[trigger] r@[i].id == k,
            forall|i: int, j: int| 0 <= i < j < r@.len() ==> r@[i].id != r@[j].id,
    {
        let mut out: Vec<WidgetIdEnabled> = Vec::new();
        for pair in it: hashmap.iter()
            invariant
                out@.len() == it.index(),
                it.seq() == vstd::std_specs::hash::spec_hash_map_iter(hashmap).remaining(),
                it.seq().no_duplicates(),
                forall|i: int|
                    0 <= i < out@.len() ==> out@[i].id == *(#[trigger] it.seq()[i]).0
                        && out@[i].enabled == *it.seq()[i].1,
                forall|i: int|
                    0 <= i < out@.len() ==> hashmap@.contains_key(#[trigger] out@[i].id)
                        && hashmap@[out@[i].id] == out@[i].enabled,
                forall|i: int, j: int| 0 <= i < j < out@.len() ==> out@[i].id != out@[j].id,
        {
            proof {
                let v = it.seq();
                let idx = it.index();
                assert(hashmap@.contains_key(*v[idx].0) && hashmap@[*v[idx].0] == *v[idx].1);
                assert forall|i: int| 0 <= i < out@.len() implies out@[i].id != *v[idx].0 by {
                    if out@[i].id == *v[idx].0 {
                        assert(hashmap@.contains_key(*v[i].0) && hashmap@[*v[i].0] == *v[i].1);
                        assert(v[i] =~= v[idx]);
                    }
                }
            }
            out.push(WidgetIdEnabled { id: *pair.0, enabled: *pair.1 });
        }
        proof {
            assert forall|k: u64| #[trigger]
                hashmap@.contains_key(k) implies exists|i: int|
                0 <= i < out@.len() && #[trigger] out@[i].id == k by {
                let v = vstd::std_specs::hash::spec_hash_map_iter(hashmap).remaining();
                assert(v.contains((&k, &hashmap@[k])));
                let i = choose|i: int| 0 <= i < v.len() && v[i] == (&k, &hashmap@[k]);
                assert(out@[i].id == k);
            }
        }
        out
    }
}

/// The document's color overrides. Only their presence matters to
/// resolution: any explicit field selects the "Custom" scheme.
#[derive(Clone, Debug, Default)]
pub struct ConfigColors {
    pub table_header_color: Option<String>,
    pub all_cpu_color: Option<String>,
    pub avg_cpu_color: Option<String>,
    pub cpu_core_colors: Option<Vec<String>>,
    pub ram_color: Option<String>,
    pub swap_color: Option<String>,
    pub rx_color: Option<String>,
    pub tx_color: Option<String>,
    pub rx_total_color: Option<String>,
    pub tx_total_color: Option<String>,
    pub border_color: Option<String>,
    pub highlighted_border_color: Option<String>,
    pub disabled_text_color: Option<String>,
    pub text_color: Option<String>,
    pub selected_text_color: Option<String>,
    pub selected_bg_color: Option<String>,
    pub widget_title_color: Option<String>,
    pub graph_color: Option<String>,
    pub high_battery_color: Option<String>,
    pub medium_battery_color: Option<String>,
    pub low_battery_color: Option<String>,
}

/// A color sub-section with no explicit field at all.
pub open spec fn spec_colors_empty(c: ConfigColors) -> bool {
    &&& c.table_header_color is None
    &&& c.all_cpu_color is None
    &&& c.avg_cpu_color is None
    &&& c.cpu_core_colors is None
    &&& c.ram_color is None
    &&& c.swap_color is None
    &&& c.rx_color is None
    &&& c.tx_color is None
    &&& c.rx_total_color is None
    &&& c.tx_total_color is None
    &&& c.border_color is None
    &&& c.highlighted_border_color is None
    &&& c.disabled_text_color is None
    &&& c.text_color is None
    &&& c.selected_text_color is None
    &&& c.selected_bg_color is None
    &&& c.widget_title_color is None
    &&& c.graph_color is None
    &&& c.high_battery_color is None
    &&& c.medium_battery_color is None
    &&& c.low_battery_color is None
}

impl ConfigColors {
    /// Whether no color override is present.
    pub fn is_empty(&self) -> (r: bool)
        ensures
            r == spec_colors_empty(*self),
    {
        self.table_header_color.is_none() && self.all_cpu_color.is_none()
            && self.avg_cpu_color.is_none() && self.cpu_core_colors.is_none()
            && self.ram_color.is_none() && self.swap_color.is_none() && self.rx_color.is_none()
            && self.tx_color.is_none() && self.rx_total_color.is_none()
            && self.tx_total_color.is_none() && self.border_color.is_none()
            && self.highlighted_border_color.is_none() && self.disabled_text_color.is_none()
            && self.text_color.is_none() && self.selected_text_color.is_none()
            && self.selected_bg_color.is_none() && self.widget_title_color.is_none()
            && self.graph_color.is_none() && self.high_battery_color.is_none()
            && self.medium_battery_color.is_none() && self.low_battery_color.is_none()
    }
}

/// The documented default of an ignore list's polarity: entries denote
/// items to exclude.
pub fn default_as_true() -> (b: bool)
    ensures
        b,
{
    true
}

/// One named ignore-list specification: literal or pattern entries plus
/// the four matching-mode booleans.
#[derive(Clone, Debug)]
pub struct IgnoreList {
    /// True: entries denote the only items to exclude. False: entries
    /// denote the only items to include.
    pub is_list_ignored: bool,
    pub list: Vec<String>,
    /// Entries are patterns rather than literals.
    pub regex: bool,
    pub case_sensitive: bool,
    pub whole_word: bool,
}

impl Default for IgnoreList {
    /// The booleans a sub-section gets when the document omits them:
    /// an empty exclusion list of literal, case-insensitive, substring
    /// entries.
    fn default() -> (r: Self)
        ensures
            r.is_list_ignored,
            r.list@.len() == 0,
            !r.regex,
            !r.case_sensitive,
            !r.whole_word,
    {
        IgnoreList {
            is_list_ignored: default_as_true(),
            list: Vec::new(),
            regex: false,
            case_sensitive: false,
            whole_word: false,
        }
    }
}

/// The layout tree the document may carry. Laying widgets out is an
/// external collaborator's job; resolution only notes its presence.
#[derive(Clone, Debug, Default)]
pub struct BottomLayout {}

} // verus!
