//! Assembly of the whole resolution pass: the resolved settings record,
//! the compiled filters, the basic-mode summary, and the widget
//! search-state overrider, combined into one immutable application
//! configuration.

use vstd::prelude::*;
use std::collections::HashMap;
use crate::args::Arguments;
use crate::config::{BottomLayout, Config, IgnoreList, WidgetIdEnabled};
use crate::constants::{BASIC_TABLE_WIDGET_ID, DEFAULT_WIDGET_ID};
use crate::error::{FilterKind, OptionError};
use crate::filter::{Filter, get_ignore_list, spec_filter_matches, spec_ignore_list_ok};
use crate::resolve::{
    get_autohide_time, get_default_time_value, get_disable_click, get_hide_table_gap,
    get_hide_time, get_is_advanced_kill_disabled, get_network_scale_type, get_network_unit_type,
    get_network_use_binary_prefix, get_show_average_cpu, get_show_table_scroll_position,
    get_temperature, get_time_interval, get_update_rate_in_milliseconds, get_use_basic_mode,
    get_use_current_cpu_total, get_use_dot, get_use_left_legend, get_use_old_network_legend,
    spec_get_autohide_time, spec_get_default_time_value, spec_get_disable_click,
    spec_get_hide_table_gap, spec_get_hide_time, spec_get_is_advanced_kill_disabled,
    spec_get_network_scale_type, spec_get_network_unit_type, spec_get_network_use_binary_prefix,
    spec_get_show_average_cpu, spec_get_show_table_scroll_position, spec_get_temperature,
    spec_get_time_interval, spec_get_update_rate, spec_get_use_basic_mode,
    spec_get_use_current_cpu_total, spec_get_use_dot, spec_get_use_left_legend,
    spec_get_use_old_network_legend,
};
use crate::widgets::{
    AxisScaling, BasicTableWidgetState, BottomWidgetType, DataUnit, ProcWidgetState,
    ProcessSearchState, TemperatureType,
};

verus! {

broadcast use vstd::std_specs::hash::group_hash_axioms;

/// The resolved settings record: every effective setting, each derived
/// independently by its precedence chain, never mutated afterward.
#[derive(Clone, Copy, Debug)]
pub struct AppConfigFields {
    pub update_rate_in_milliseconds: u64,
    pub temperature_type: TemperatureType,
    pub show_average_cpu: bool,
    pub use_dot: bool,
    pub left_legend: bool,
    pub use_current_cpu_total: bool,
    pub use_basic_mode: bool,
    pub default_time_value: u64,
    pub time_interval: u64,
    pub hide_time: bool,
    pub autohide_time: bool,
    pub use_old_network_legend: bool,
    pub table_gap: u16,
    pub disable_click: bool,
    pub no_write: bool,
    pub show_table_scroll_position: bool,
    pub is_advanced_kill: bool,
    pub network_scale_type: AxisScaling,
    pub network_unit_type: DataUnit,
    pub network_use_binary_prefix: bool,
}

/// The four compiled filters, each absent when its specification was.
#[derive(Debug)]
pub struct DataFilters {
    pub disk_filter: Option<Filter>,
    pub mount_filter: Option<Filter>,
    pub temp_filter: Option<Filter>,
    pub net_filter: Option<Filter>,
}

/// Everything one resolution pass produces.
#[derive(Debug)]
pub struct AppState {
    pub app_config_fields: AppConfigFields,
    pub basic_table_widget_state: Option<BasicTableWidgetState>,
    pub filters: DataFilters,
    pub proc_state_map: HashMap<u64, ProcWidgetState>,
}

/// The settings record that follows from the two sources, meaningful
/// once every fallible setting resolved.
pub open spec fn spec_app_config_fields(args: Arguments, config: Config) -> AppConfigFields {
    AppConfigFields {
        update_rate_in_milliseconds: spec_get_update_rate(args, config)->Ok_0,
        temperature_type: spec_get_temperature(args, config)->Ok_0,
        show_average_cpu: spec_get_show_average_cpu(args, config),
        use_dot: spec_get_use_dot(args, config),
        left_legend: spec_get_use_left_legend(args, config),
        use_current_cpu_total: spec_get_use_current_cpu_total(args, config),
        use_basic_mode: spec_get_use_basic_mode(args, config),
        default_time_value: spec_get_default_time_value(args, config)->Ok_0,
        time_interval: spec_get_time_interval(args, config)->Ok_0,
        hide_time: spec_get_hide_time(args, config),
        autohide_time: spec_get_autohide_time(args, config),
        use_old_network_legend: spec_get_use_old_network_legend(args, config),
        table_gap: if spec_get_hide_table_gap(args, config) {
            0u16
        } else {
            1u16
        },
        disable_click: spec_get_disable_click(args, config),
        no_write: false,
        show_table_scroll_position: spec_get_show_table_scroll_position(args, config),
        is_advanced_kill: !spec_get_is_advanced_kill_disabled(args, config),
        network_scale_type: spec_get_network_scale_type(args, config),
        network_unit_type: spec_get_network_unit_type(args, config),
        network_use_binary_prefix: spec_get_network_use_binary_prefix(args, config),
    }
}

/// The basic-mode summary for a selected widget: one of the three
/// basic-mode-eligible table kinds keeps its identity; any other kind
/// falls back to the process table under the fixed default identifier.
/// The container itself always carries the fixed sentinel identifier,
/// and the four anchors start empty.
pub open spec fn spec_basic_table_state(
    widget_type: BottomWidgetType,
    widget_id: u64,
) -> BasicTableWidgetState {
    match widget_type {
        BottomWidgetType::Proc | BottomWidgetType::Disk | BottomWidgetType::Temp => (
        BasicTableWidgetState {
            currently_displayed_widget_type: widget_type,
            currently_displayed_widget_id: widget_id,
            widget_id: BASIC_TABLE_WIDGET_ID,
            left_tlc: None,
            left_brc: None,
            right_tlc: None,
            right_brc: None,
        }),
        _ => (BasicTableWidgetState {
            currently_displayed_widget_type: BottomWidgetType::Proc,
            currently_displayed_widget_id: DEFAULT_WIDGET_ID,
            widget_id: BASIC_TABLE_WIDGET_ID,
            left_tlc: None,
            left_brc: None,
            right_tlc: None,
            right_brc: None,
        }),
    }
}

/// Builds the basic-mode summary record.
pub fn basic_table_state(widget_type: BottomWidgetType, widget_id: u64) -> (r:
    BasicTableWidgetState)
    ensures
        r == spec_basic_table_state(widget_type, widget_id),
{
    match widget_type {
        BottomWidgetType::Proc | BottomWidgetType::Disk | BottomWidgetType::Temp => (
        BasicTableWidgetState {
            currently_displayed_widget_type: widget_type,
            currently_displayed_widget_id: widget_id,
            widget_id: BASIC_TABLE_WIDGET_ID,
            left_tlc: None,
            left_brc: None,
            right_tlc: None,
            right_brc: None,
        }),
        _ => (BasicTableWidgetState {
            currently_displayed_widget_type: BottomWidgetType::Proc,
            currently_displayed_widget_id: DEFAULT_WIDGET_ID,
            widget_id: BASIC_TABLE_WIDGET_ID,
            left_tlc: None,
            left_brc: None,
            right_tlc: None,
            right_brc: None,
        }),
    }
}

/// `w` with its ignoring-case field replaced.
pub open spec fn set_ignoring_case(w: ProcWidgetState, v: bool) -> ProcWidgetState {
    ProcWidgetState {
        process_search_state: ProcessSearchState {
            is_ignoring_case: v,
            is_searching_whole_word: w.process_search_state.is_searching_whole_word,
            is_searching_with_regex: w.process_search_state.is_searching_with_regex,
        },
    }
}

/// `w` with its whole-word field replaced.
pub open spec fn set_whole_word(w: ProcWidgetState, v: bool) -> ProcWidgetState {
    ProcWidgetState {
        process_search_state: ProcessSearchState {
            is_ignoring_case: w.process_search_state.is_ignoring_case,
            is_searching_whole_word: v,
            is_searching_with_regex: w.process_search_state.is_searching_with_regex,
        },
    }
}

/// `w` with its regex field replaced.
pub open spec fn set_regex(w: ProcWidgetState, v: bool) -> ProcWidgetState {
    ProcWidgetState {
        process_search_state: ProcessSearchState {
            is_ignoring_case: w.process_search_state.is_ignoring_case,
            is_searching_whole_word: w.process_search_state.is_searching_whole_word,
            is_searching_with_regex: v,
        },
    }
}

/// Replays a persisted override list onto the ignoring-case field, in
/// list order: each entry whose identifier names a live widget overwrites
/// that one field (negated — the persisted boolean means "case
/// sensitive"); unmatched identifiers are ignored.
pub open spec fn spec_apply_case_entries(
    m: Map<u64, ProcWidgetState>,
    entries: Seq<WidgetIdEnabled>,
) -> Map<u64, ProcWidgetState>
    decreases entries.len(),
{
    if entries.len() == 0 {
        m
    } else {
        let prev = spec_apply_case_entries(m, entries.drop_last());
        let e = entries.last();
        if prev.contains_key(e.id) {
            prev.insert(e.id, set_ignoring_case(prev[e.id], !e.enabled))
        } else {
            prev
        }
    }
}

/// Replays a persisted override list onto the whole-word field.
pub open spec fn spec_apply_whole_word_entries(
    m: Map<u64, ProcWidgetState>,
    entries: Seq<WidgetIdEnabled>,
) -> Map<u64, ProcWidgetState>
    decreases entries.len(),
{
    if entries.len() == 0 {
        m
    } else {
        let prev = spec_apply_whole_word_entries(m, entries.drop_last());
        let e = entries.last();
        if prev.contains_key(e.id) {
            prev.insert(e.id, set_whole_word(prev[e.id], e.enabled))
        } else {
            prev
        }
    }
}

/// Replays a persisted override list onto the regex field.
pub open spec fn spec_apply_regex_entries(
    m: Map<u64, ProcWidgetState>,
    entries: Seq<WidgetIdEnabled>,
) -> Map<u64, ProcWidgetState>
    decreases entries.len(),
{
    if entries.len() == 0 {
        m
    } else {
        let prev = spec_apply_regex_entries(m, entries.drop_last());
        let e = entries.last();
        if prev.contains_key(e.id) {
            prev.insert(e.id, set_regex(prev[e.id], e.enabled))
        } else {
            prev
        }
    }
}

/// The case-sensitivity override list, but only when both
/// higher-precedence sources were silent about the global setting.
pub open spec fn spec_case_override(args: Arguments, config: Config) -> Option<
    Seq<WidgetIdEnabled>,
> {
    match config.flags {
        Some(f) => if f.case_sensitive is None && !args.case_sensitive {
            match f.search_case_enabled_widgets {
                Some(v) => Some(v@),
                None => None,
            }
        } else {
            None
        },
        None => None,
    }
}

/// The whole-word override list, under the same trigger condition.
pub open spec fn spec_whole_word_override(args: Arguments, config: Config) -> Option<
    Seq<WidgetIdEnabled>,
> {
    match config.flags {
        Some(f) => if f.whole_word is None && !args.whole_word {
            match f.search_whole_word_enabled_widgets {
                Some(v) => Some(v@),
                None => None,
            }
        } else {
            None
        },
        None => None,
    }
}

/// The regex override list, under the same trigger condition.
pub open spec fn spec_regex_override(args: Arguments, config: Config) -> Option<
    Seq<WidgetIdEnabled>,
> {
    match config.flags {
        Some(f) => if f.regex is None && !args.regex {
            match f.search_regex_enabled_widgets {
                Some(v) => Some(v@),
                None => None,
            }
        } else {
            None
        },
        None => None,
    }
}

/// The whole overrider pass: the three settings replayed independently,
/// case sensitivity first, then whole word, then regex; a setting whose
/// trigger condition fails leaves the mapping untouched.
pub open spec fn spec_apply_search_overrides(
    args: Arguments,
    config: Config,
    m: Map<u64, ProcWidgetState>,
) -> Map<u64, ProcWidgetState> {
    let after_case = match spec_case_override(args, config) {
        Some(es) => spec_apply_case_entries(m, es),
        None => m,
    };
    let after_whole = match spec_whole_word_override(args, config) {
        Some(es) => spec_apply_whole_word_entries(after_case, es),
        None => after_case,
    };
    match spec_regex_override(args, config) {
        Some(es) => spec_apply_regex_entries(after_whole, es),
        None => after_whole,
    }
}

/// Replays the persisted per-widget override lists onto the live
/// search-state mapping, one setting at a time, and only where neither
/// the command line nor the document's global flag spoke for that
/// setting. Existing entries are only ever flipped; none is created or
/// deleted.
pub fn apply_search_overrides(
    args: &Arguments,
    config: &Config,
    proc_state_map: &mut HashMap<u64, ProcWidgetState>,
)
    ensures
        final(proc_state_map)@ == spec_apply_search_overrides(*args, *config, old(
            proc_state_map,
        )@),
{
    if let Some(flags) = &config.flags {
        if flags.case_sensitive.is_none() && !args.case_sensitive {
            if let Some(entries) = &flags.search_case_enabled_widgets {
                let ghost m0 = proc_state_map@;
                let mut i: usize = 0;
                while i < entries.len()
                    invariant
                        i <= entries@.len(),
                        proc_state_map@ == spec_apply_case_entries(m0, entries@.take(i as int)),
                    decreases entries@.len() - i,
                {
                    proof {
                        assert(entries@.take(i + 1).drop_last() =~= entries@.take(i as int));
                        assert(entries@.take(i + 1).last() == entries@[i as int]);
                    }
                    let e = entries[i];
                    if let Some(cur) = proc_state_map.get(&e.id) {
                        let mut st = *cur;
                        st.process_search_state.is_ignoring_case = !e.enabled;
                        proc_state_map.insert(e.id, st);
                    }
                    i += 1;
                }
                proof {
                    assert(entries@.take(entries@.len() as int) =~= entries@);
                }
            }
        }
        if flags.whole_word.is_none() && !args.whole_word {
            if let Some(entries) = &flags.search_whole_word_enabled_widgets {
                let ghost m0 = proc_state_map@;
                let mut i: usize = 0;
                while i < entries.len()
                    invariant
                        i <= entries@.len(),
                        proc_state_map@ == spec_apply_whole_word_entries(
                            m0,
                            entries@.take(i as int),
                        ),
                    decreases entries@.len() - i,
                {
                    proof {
                        assert(entries@.take(i + 1).drop_last() =~= entries@.take(i as int));
                        assert(entries@.take(i + 1).last() == entries@[i as int]);
                    }
                    let e = entries[i];
                    if let Some(cur) = proc_state_map.get(&e.id) {
                        let mut st = *cur;
                        st.process_search_state.is_searching_whole_word = e.enabled;
                        proc_state_map.insert(e.id, st);
                    }
                    i += 1;
                }
                proof {
                    assert(entries@.take(entries@.len() as int) =~= entries@);
                }
            }
        }
        if flags.regex.is_none() && !args.regex {
            if let Some(entries) = &flags.search_regex_enabled_widgets {
                let ghost m0 = proc_state_map@;
                let mut i: usize = 0;
                while i < entries.len()
                    invariant
                        i <= entries@.len(),
                        proc_state_map@ == spec_apply_regex_entries(m0, entries@.take(i as int)),
                    decreases entries@.len() - i,
                {
                    proof {
                        assert(entries@.take(i + 1).drop_last() =~= entries@.take(i as int));
                        assert(entries@.take(i + 1).last() == entries@[i as int]);
                    }
                    let e = entries[i];
                    if let Some(cur) = proc_state_map.get(&e.id) {
                        let mut st = *cur;
                        st.process_search_state.is_searching_with_regex = e.enabled;
                        proc_state_map.insert(e.id, st);
                    }
                    i += 1;
                }
                proof {
                    assert(entries@.take(entries@.len() as int) =~= entries@);
                }
            }
        }
    }
}

/// The optional specification `l` compiles in full.
pub open spec fn spec_opt_list_ok(l: Option<IgnoreList>) -> bool {
    match l {
        None => true,
        Some(il) => spec_ignore_list_ok(il),
    }
}

/// `f` is the faithful compilation of the optional specification `l`.
pub open spec fn spec_opt_filter_matches(
    f: Option<Filter>,
    l: Option<IgnoreList>,
) -> bool {
    match l {
        None => f is None,
        Some(il) => f matches Some(ff) && spec_filter_matches(ff, il),
    }
}

/// All four named ignore-list specifications of the document compile.
pub open spec fn spec_filters_ok(config: Config) -> bool {
    &&& spec_opt_list_ok(config.disk_filter)
    &&& spec_opt_list_ok(config.mount_filter)
    &&& spec_opt_list_ok(config.temp_filter)
    &&& spec_opt_list_ok(config.net_filter)
}

/// Every non-filter resolution of the pass succeeded.
pub open spec fn spec_settings_ok(args: Arguments, config: Config) -> bool {
    &&& spec_get_default_time_value(args, config) is Ok
    &&& spec_get_update_rate(args, config) is Ok
    &&& spec_get_temperature(args, config) is Ok
    &&& spec_get_time_interval(args, config) is Ok
}

/// The basic-mode summary build_app carries: present exactly in basic
/// mode, describing the process table under the caller's widget
/// identifier.
pub open spec fn spec_basic_table_widget_state(
    args: Arguments,
    config: Config,
    default_widget_id: u64,
) -> Option<BasicTableWidgetState> {
    if spec_get_use_basic_mode(args, config) {
        Some(spec_basic_table_state(BottomWidgetType::Proc, default_widget_id))
    } else {
        None
    }
}

/// Runs the whole resolution pass: resolves every setting, compiles the
/// four filters, replays the search-state overrides onto a freshly
/// created (empty) widget mapping, and assembles the application
/// configuration. It fails with the first validation error, in the fixed
/// order: default time window, refresh rate, temperature unit, time
/// delta, then the disk, mount, temperature and network filters.
pub fn build_app(args: &Arguments, config: &Config, default_widget_id: u64) -> (r: Result<
    AppState,
    OptionError,
>)
    ensures
        (r is Ok) == {
            &&& spec_get_default_time_value(*args, *config) is Ok
            &&& spec_get_update_rate(*args, *config) is Ok
            &&& spec_get_temperature(*args, *config) is Ok
            &&& spec_get_time_interval(*args, *config) is Ok
            &&& spec_filters_ok(*config)
        },
        spec_get_default_time_value(*args, *config) matches Err(e) ==> r == Err::<
            AppState,
            OptionError,
        >(e),
        spec_get_default_time_value(*args, *config) is Ok ==> (spec_get_update_rate(
            *args,
            *config,
        ) matches Err(e) ==> r == Err::<AppState, OptionError>(e)),
        spec_get_default_time_value(*args, *config) is Ok && spec_get_update_rate(
            *args,
            *config,
        ) is Ok ==> (spec_get_temperature(*args, *config) matches Err(e) ==> r == Err::<
            AppState,
            OptionError,
        >(e)),
        spec_get_default_time_value(*args, *config) is Ok && spec_get_update_rate(
            *args,
            *config,
        ) is Ok && spec_get_temperature(*args, *config) is Ok ==> (spec_get_time_interval(
            *args,
            *config,
        ) matches Err(e) ==> r == Err::<AppState, OptionError>(e)),
        r matches Err(e) ==> (e matches OptionError::FilterCompileFailure {
            kind: k,
            message: _,
        } ==> {
            &&& k is Disk ==> !spec_opt_list_ok(config.disk_filter)
            &&& k is Mount ==> !spec_opt_list_ok(config.mount_filter)
            &&& k is Temp ==> !spec_opt_list_ok(config.temp_filter)
            &&& k is Net ==> !spec_opt_list_ok(config.net_filter)
        }),
        spec_settings_ok(*args, *config) && !spec_opt_list_ok(config.disk_filter) ==> (r
            matches Err(e) && e matches OptionError::FilterCompileFailure {
            kind: k,
            message: _,
        } && k is Disk),
        spec_settings_ok(*args, *config) && spec_opt_list_ok(config.disk_filter)
            && !spec_opt_list_ok(config.mount_filter) ==> (r matches Err(e)
            && e matches OptionError::FilterCompileFailure { kind: k, message: _ } && k is Mount),
        spec_settings_ok(*args, *config) && spec_opt_list_ok(config.disk_filter)
            && spec_opt_list_ok(config.mount_filter) && !spec_opt_list_ok(config.temp_filter)
            ==> (r matches Err(e) && e matches OptionError::FilterCompileFailure {
            kind: k,
            message: _,
        } && k is Temp),
        spec_settings_ok(*args, *config) && spec_opt_list_ok(config.disk_filter)
            && spec_opt_list_ok(config.mount_filter) && spec_opt_list_ok(config.temp_filter)
            && !spec_opt_list_ok(config.net_filter) ==> (r matches Err(e)
            && e matches OptionError::FilterCompileFailure { kind: k, message: _ } && k is Net),
        r matches Ok(st) ==> {
            &&& st.app_config_fields == spec_app_config_fields(*args, *config)
            &&& st.basic_table_widget_state == spec_basic_table_widget_state(
                *args,
                *config,
                default_widget_id,
            )
            &&& spec_opt_filter_matches(st.filters.disk_filter, config.disk_filter)
            &&& spec_opt_filter_matches(st.filters.mount_filter, config.mount_filter)
            &&& spec_opt_filter_matches(st.filters.temp_filter, config.temp_filter)
            &&& spec_opt_filter_matches(st.filters.net_filter, config.net_filter)
            &&& st.proc_state_map@ == spec_apply_search_overrides(
                *args,
                *config,
                Map::<u64, ProcWidgetState>::empty(),
            )
        },
{
    let autohide_time = get_autohide_time(args, config);
    let default_time_value = match get_default_time_value(args, config) {
        Ok(v) => v,
        Err(e) => {
            return Err(e);
        },
    };
    let use_basic_mode = get_use_basic_mode(args, config);
    let update_rate_in_milliseconds = match get_update_rate_in_milliseconds(args, config) {
        Ok(v) => v,
        Err(e) => {
            return Err(e);
        },
    };
    let temperature_type = match get_temperature(args, config) {
        Ok(v) => v,
        Err(e) => {
            return Err(e);
        },
    };
    let time_interval = match get_time_interval(args, config) {
        Ok(v) => v,
        Err(e) => {
            return Err(e);
        },
    };
    let is_advanced_kill = !get_is_advanced_kill_disabled(args, config);
    let network_unit_type = get_network_unit_type(args, config);
    let network_scale_type = get_network_scale_type(args, config);
    let network_use_binary_prefix = get_network_use_binary_prefix(args, config);

    let basic_table_widget_state = if use_basic_mode {
        Some(basic_table_state(BottomWidgetType::Proc, default_widget_id))
    } else {
        None
    };

    let app_config_fields = AppConfigFields {
        update_rate_in_milliseconds,
        temperature_type,
        show_average_cpu: get_show_average_cpu(args, config),
        use_dot: get_use_dot(args, config),
        left_legend: get_use_left_legend(args, config),
        use_current_cpu_total: get_use_current_cpu_total(args, config),
        use_basic_mode,
        default_time_value,
        time_interval,
        hide_time: get_hide_time(args, config),
        autohide_time,
        use_old_network_legend: get_use_old_network_legend(args, config),
        table_gap: if get_hide_table_gap(args, config) {
            0
        } else {
            1
        },
        disable_click: get_disable_click(args, config),
        no_write: false,
        show_table_scroll_position: get_show_table_scroll_position(args, config),
        is_advanced_kill,
        network_scale_type,
        network_unit_type,
        network_use_binary_prefix,
    };

    let disk_filter = match get_ignore_list(&config.disk_filter, FilterKind::Disk) {
        Ok(f) => f,
        Err(e) => {
            return Err(e);
        },
    };
    let mount_filter = match get_ignore_list(&config.mount_filter, FilterKind::Mount) {
        Ok(f) => f,
        Err(e) => {
            return Err(e);
        },
    };
    let temp_filter = match get_ignore_list(&config.temp_filter, FilterKind::Temp) {
        Ok(f) => f,
        Err(e) => {
            return Err(e);
        },
    };
    let net_filter = match get_ignore_list(&config.net_filter, FilterKind::Net) {
        Ok(f) => f,
        Err(e) => {
            return Err(e);
        },
    };

    let mut proc_state_map: HashMap<u64, ProcWidgetState> = HashMap::new();
    apply_search_overrides(args, config, &mut proc_state_map);

    Ok(
        AppState {
            app_config_fields,
            basic_table_widget_state,
            filters: DataFilters { disk_filter, mount_filter, temp_filter, net_filter },
            proc_state_map,
        },
    )
}

/// Picks the widget layout. Laying widgets out belongs to the rendering
/// engine; this resolution core settles for the default layout, the zero
/// identifier and no selected widget type, after resolving the settings
/// the layout depends on.
pub fn get_widget_layout(args: &Arguments, config: &Config) -> (r: Result<
    (BottomLayout, u64, Option<BottomWidgetType>),
    OptionError,
>)
    ensures
        r matches Ok(t) && t.1 == 0u64 && t.2 is None,
{
    let _use_basic_mode = get_use_basic_mode(args, config);
    let _use_left_legend = get_use_left_legend(args, config);
    Ok((BottomLayout {  }, 0, None))
}

proof fn lemma_apply_case_frame(m: Map<u64, ProcWidgetState>, entries: Seq<WidgetIdEnabled>)
    ensures
        spec_apply_case_entries(m, entries).dom() == m.dom(),
        forall|k: u64|
            #![trigger spec_apply_case_entries(m, entries)[k]]
            m.contains_key(k) ==> spec_apply_case_entries(m, entries)[k].process_search_state.is_searching_whole_word
                == m[k].process_search_state.is_searching_whole_word && spec_apply_case_entries(m, entries)[k].process_search_state.is_searching_with_regex
                == m[k].process_search_state.is_searching_with_regex,
    decreases entries.len(),
{
    if entries.len() > 0 {
        lemma_apply_case_frame(m, entries.drop_last());
        let prev = spec_apply_case_entries(m, entries.drop_last());
        let e = entries.last();
        if prev.contains_key(e.id) {
            assert(prev.insert(e.id, set_ignoring_case(prev[e.id], !e.enabled)).dom()
                =~= prev.dom());
        }
    }
}

proof fn lemma_apply_whole_word_frame(m: Map<u64, ProcWidgetState>, entries: Seq<WidgetIdEnabled>)
    ensures
        spec_apply_whole_word_entries(m, entries).dom() == m.dom(),
        forall|k: u64|
            #![trigger spec_apply_whole_word_entries(m, entries)[k]]
            m.contains_key(k) ==> spec_apply_whole_word_entries(m, entries)[k].process_search_state.is_ignoring_case
                == m[k].process_search_state.is_ignoring_case && spec_apply_whole_word_entries(m, entries)[k].process_search_state.is_searching_with_regex
                == m[k].process_search_state.is_searching_with_regex,
    decreases entries.len(),
{
    if entries.len() > 0 {
        lemma_apply_whole_word_frame(m, entries.drop_last());
        let prev = spec_apply_whole_word_entries(m, entries.drop_last());
        let e = entries.last();
        if prev.contains_key(e.id) {
            assert(prev.insert(e.id, set_whole_word(prev[e.id], e.enabled)).dom() =~= prev.dom());
        }
    }
}

proof fn lemma_apply_regex_frame(m: Map<u64, ProcWidgetState>, entries: Seq<WidgetIdEnabled>)
    ensures
        spec_apply_regex_entries(m, entries).dom() == m.dom(),
        forall|k: u64|
            #![trigger spec_apply_regex_entries(m, entries)[k]]
            m.contains_key(k) ==> spec_apply_regex_entries(m, entries)[k].process_search_state.is_ignoring_case
                == m[k].process_search_state.is_ignoring_case && spec_apply_regex_entries(m, entries)[k].process_search_state.is_searching_whole_word
                == m[k].process_search_state.is_searching_whole_word,
    decreases entries.len(),
{
    if entries.len() > 0 {
        lemma_apply_regex_frame(m, entries.drop_last());
        let prev = spec_apply_regex_entries(m, entries.drop_last());
        let e = entries.last();
        if prev.contains_key(e.id) {
            assert(prev.insert(e.id, set_regex(prev[e.id], e.enabled)).dom() =~= prev.dom());
        }
    }
}

/// Law: the overrider never creates a widget entry and never deletes
/// one — whatever the sources say, the mapping keeps exactly its keys.
pub proof fn lemma_overrides_preserve_widgets(
    args: Arguments,
    config: Config,
    m: Map<u64, ProcWidgetState>,
)
    ensures
        spec_apply_search_overrides(args, config, m).dom() == m.dom(),
{
    let after_case = match spec_case_override(args, config) {
        Some(es) => spec_apply_case_entries(m, es),
        None => m,
    };
    let after_whole = match spec_whole_word_override(args, config) {
        Some(es) => spec_apply_whole_word_entries(after_case, es),
        None => after_case,
    };
    if spec_case_override(args, config) is Some {
        lemma_apply_case_frame(m, spec_case_override(args, config)->Some_0);
    }
    if spec_whole_word_override(args, config) is Some {
        lemma_apply_whole_word_frame(after_case, spec_whole_word_override(args, config)->Some_0);
    }
    if spec_regex_override(args, config) is Some {
        lemma_apply_regex_frame(after_whole, spec_regex_override(args, config)->Some_0);
    }
}

/// Law: when the command line carries the case-sensitivity flag, or the
/// document's global case-sensitivity flag is set, the per-widget case
/// override list is ignored entirely — no widget's ignoring-case field
/// changes — even when the list is present.
pub proof fn lemma_case_override_inert(
    args: Arguments,
    config: Config,
    m: Map<u64, ProcWidgetState>,
)
    requires
        args.case_sensitive || (config.flags matches Some(f) && f.case_sensitive is Some),
    ensures
        forall|k: u64|
            #![trigger spec_apply_search_overrides(args, config, m)[k]]
            m.contains_key(k) ==> spec_apply_search_overrides(
                args,
                config,
                m,
            )[k].process_search_state.is_ignoring_case
                == m[k].process_search_state.is_ignoring_case,
{
    assert(spec_case_override(args, config) is None);
    let after_whole = match spec_whole_word_override(args, config) {
        Some(es) => spec_apply_whole_word_entries(m, es),
        None => m,
    };
    if spec_whole_word_override(args, config) is Some {
        lemma_apply_whole_word_frame(m, spec_whole_word_override(args, config)->Some_0);
    }
    if spec_regex_override(args, config) is Some {
        lemma_apply_regex_frame(after_whole, spec_regex_override(args, config)->Some_0);
    }
}

/// Law: when the command line carries the whole-word flag, or the
/// document's global whole-word flag is set, the per-widget whole-word
/// override list is ignored entirely.
pub proof fn lemma_whole_word_override_inert(
    args: Arguments,
    config: Config,
    m: Map<u64, ProcWidgetState>,
)
    requires
        args.whole_word || (config.flags matches Some(f) && f.whole_word is Some),
    ensures
        forall|k: u64|
            #![trigger spec_apply_search_overrides(args, config, m)[k]]
            m.contains_key(k) ==> spec_apply_search_overrides(
                args,
                config,
                m,
            )[k].process_search_state.is_searching_whole_word
                == m[k].process_search_state.is_searching_whole_word,
{
    assert(spec_whole_word_override(args, config) is None);
    let after_case = match spec_case_override(args, config) {
        Some(es) => spec_apply_case_entries(m, es),
        None => m,
    };
    if spec_case_override(args, config) is Some {
        lemma_apply_case_frame(m, spec_case_override(args, config)->Some_0);
    }
    if spec_regex_override(args, config) is Some {
        lemma_apply_regex_frame(after_case, spec_regex_override(args, config)->Some_0);
    }
    assert forall|k: u64|
        #![trigger spec_apply_search_overrides(args, config, m)[k]]
        m.contains_key(k) implies spec_apply_search_overrides(
        args,
        config,
        m,
    )[k].process_search_state.is_searching_whole_word
        == m[k].process_search_state.is_searching_whole_word by {
        assert(after_case.contains_key(k));
        assert(after_case[k].process_search_state.is_searching_whole_word
            == m[k].process_search_state.is_searching_whole_word);
    }
}

/// Law: when the command line carries the regex flag, or the document's
/// global regex flag is set, the per-widget regex override list is
/// ignored entirely.
pub proof fn lemma_regex_override_inert(
    args: Arguments,
    config: Config,
    m: Map<u64, ProcWidgetState>,
)
    requires
        args.regex || (config.flags matches Some(f) && f.regex is Some),
    ensures
        forall|k: u64|
            #![trigger spec_apply_search_overrides(args, config, m)[k]]
            m.contains_key(k) ==> spec_apply_search_overrides(
                args,
                config,
                m,
            )[k].process_search_state.is_searching_with_regex
                == m[k].process_search_state.is_searching_with_regex,
{
    assert(spec_regex_override(args, config) is None);
    let after_case = match spec_case_override(args, config) {
        Some(es) => spec_apply_case_entries(m, es),
        None => m,
    };
    if spec_case_override(args, config) is Some {
        lemma_apply_case_frame(m, spec_case_override(args, config)->Some_0);
    }
    if spec_whole_word_override(args, config) is Some {
        lemma_apply_whole_word_frame(after_case, spec_whole_word_override(args, config)->Some_0);
    }
    assert forall|k: u64|
        #![trigger spec_apply_search_overrides(args, config, m)[k]]
        m.contains_key(k) implies spec_apply_search_overrides(
        args,
        config,
        m,
    )[k].process_search_state.is_searching_with_regex
        == m[k].process_search_state.is_searching_with_regex by {
        assert(after_case.contains_key(k));
        assert(after_case[k].process_search_state.is_searching_with_regex
            == m[k].process_search_state.is_searching_with_regex);
    }
}

} // verus!
