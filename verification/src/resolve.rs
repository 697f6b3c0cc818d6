//! The settings resolver: one fixed-order precedence chain per setting.
//!
//! For every setting the chain is the same — an explicit command-line
//! flag or value first, then the document's optional field, then the
//! built-in default — and no setting consults anything else. Bounded
//! numeric settings are read from text at a 128-bit width so that both
//! bounds violations and 64-bit overflow are told apart, and every
//! validation failure is the terminal outcome of the whole pass.

use vstd::prelude::*;
use crate::args::Arguments;
use crate::config::{Config, spec_colors_empty};
use crate::constants::{DEFAULT_REFRESH_RATE_IN_MILLISECONDS, DEFAULT_TIME_MILLISECONDS, STALE_MAX_MILLISECONDS, TIME_CHANGE_MILLISECONDS};
use crate::error::OptionError;
use crate::text::{parse_u128, spec_parse_u128, str_eq};
use crate::widgets::{
    AxisScaling, BottomWidgetType, ColorScheme, DataUnit, TemperatureType, parse_color_scheme,
    parse_widget_type, spec_parse_color_scheme, spec_parse_widget_type,
};

verus! {

/// Fixed-order precedence chain for a boolean setting: an explicit
/// command-line presence flag always resolves to `true`; otherwise the
/// document's optional value decides; otherwise the built-in default.
pub open spec fn spec_resolve_bool(cli_present: bool, doc: Option<bool>, default: bool) -> bool {
    if cli_present {
        true
    } else {
        match doc {
            Some(v) => v,
            None => default,
        }
    }
}

/// Law: a resolved boolean equals the command line's value when the flag
/// is present, else the document's value when its field is set, else the
/// built-in default.
pub proof fn lemma_bool_precedence(cli_present: bool, doc: Option<bool>, default: bool)
    ensures
        cli_present ==> spec_resolve_bool(cli_present, doc, default),
        !cli_present ==> match doc {
            Some(v) => spec_resolve_bool(cli_present, doc, default) == v,
            None => spec_resolve_bool(cli_present, doc, default) == default,
        },
{
}

/// Resolves one boolean setting from its three sources.
pub fn resolve_bool(cli_present: bool, doc: Option<bool>, default: bool) -> (r: bool)
    ensures
        r == spec_resolve_bool(cli_present, doc, default),
{
    if cli_present {
        true
    } else {
        match doc {
            Some(v) => v,
            None => default,
        }
    }
}

/// Whether graphs draw with a dot marker.
pub open spec fn spec_get_use_dot(args: Arguments, config: Config) -> bool {
    spec_resolve_bool(
        args.dot_marker,
        match config.flags {
            Some(f) => f.dot_marker,
            None => None,
        },
        false,
    )
}

pub fn get_use_dot(args: &Arguments, config: &Config) -> (r: bool)
    ensures
        r == spec_get_use_dot(*args, *config),
{
    resolve_bool(
        args.dot_marker,
        match &config.flags {
            Some(f) => f.dot_marker,
            None => None,
        },
        false,
    )
}

/// Whether to show the average CPU line: on by default, so the document
/// stores the setting inverted as `hide_avg_cpu`.
pub open spec fn spec_get_show_average_cpu(args: Arguments, config: Config) -> bool {
    if args.hide_avg_cpu {
        false
    } else {
        match config.flags {
            Some(f) => match f.hide_avg_cpu {
                Some(h) => !h,
                None => true,
            },
            None => true,
        }
    }
}

pub fn get_show_average_cpu(args: &Arguments, config: &Config) -> (r: bool)
    ensures
        r == spec_get_show_average_cpu(*args, *config),
{
    if args.hide_avg_cpu {
        false
    } else {
        match &config.flags {
            Some(f) => match f.hide_avg_cpu {
                Some(h) => !h,
                None => true,
            },
            None => true,
        }
    }
}

pub open spec fn spec_get_use_left_legend(args: Arguments, config: Config) -> bool {
    spec_resolve_bool(
        args.left_legend,
        match config.flags {
            Some(f) => f.left_legend,
            None => None,
        },
        false,
    )
}

pub fn get_use_left_legend(args: &Arguments, config: &Config) -> (r: bool)
    ensures
        r == spec_get_use_left_legend(*args, *config),
{
    resolve_bool(
        args.left_legend,
        match &config.flags {
            Some(f) => f.left_legend,
            None => None,
        },
        false,
    )
}

pub open spec fn spec_get_use_current_cpu_total(args: Arguments, config: Config) -> bool {
    spec_resolve_bool(
        args.current_usage,
        match config.flags {
            Some(f) => f.current_usage,
            None => None,
        },
        false,
    )
}

pub fn get_use_current_cpu_total(args: &Arguments, config: &Config) -> (r: bool)
    ensures
        r == spec_get_use_current_cpu_total(*args, *config),
{
    resolve_bool(
        args.current_usage,
        match &config.flags {
            Some(f) => f.current_usage,
            None => None,
        },
        false,
    )
}

pub open spec fn spec_get_use_basic_mode(args: Arguments, config: Config) -> bool {
    spec_resolve_bool(
        args.basic,
        match config.flags {
            Some(f) => f.basic,
            None => None,
        },
        false,
    )
}

pub fn get_use_basic_mode(args: &Arguments, config: &Config) -> (r: bool)
    ensures
        r == spec_get_use_basic_mode(*args, *config),
{
    resolve_bool(
        args.basic,
        match &config.flags {
            Some(f) => f.basic,
            None => None,
        },
        false,
    )
}

pub open spec fn spec_get_app_grouping(args: Arguments, config: Config) -> bool {
    spec_resolve_bool(
        args.group,
        match config.flags {
            Some(f) => f.group_processes,
            None => None,
        },
        false,
    )
}

pub fn get_app_grouping(args: &Arguments, config: &Config) -> (r: bool)
    ensures
        r == spec_get_app_grouping(*args, *config),
{
    resolve_bool(
        args.group,
        match &config.flags {
            Some(f) => f.group_processes,
            None => None,
        },
        false,
    )
}

pub open spec fn spec_get_app_case_sensitive(args: Arguments, config: Config) -> bool {
    spec_resolve_bool(
        args.case_sensitive,
        match config.flags {
            Some(f) => f.case_sensitive,
            None => None,
        },
        false,
    )
}

pub fn get_app_case_sensitive(args: &Arguments, config: &Config) -> (r: bool)
    ensures
        r == spec_get_app_case_sensitive(*args, *config),
{
    resolve_bool(
        args.case_sensitive,
        match &config.flags {
            Some(f) => f.case_sensitive,
            None => None,
        },
        false,
    )
}

pub open spec fn spec_get_app_match_whole_word(args: Arguments, config: Config) -> bool {
    spec_resolve_bool(
        args.whole_word,
        match config.flags {
            Some(f) => f.whole_word,
            None => None,
        },
        false,
    )
}

pub fn get_app_match_whole_word(args: &Arguments, config: &Config) -> (r: bool)
    ensures
        r == spec_get_app_match_whole_word(*args, *config),
{
    resolve_bool(
        args.whole_word,
        match &config.flags {
            Some(f) => f.whole_word,
            None => None,
        },
        false,
    )
}

pub open spec fn spec_get_app_use_regex(args: Arguments, config: Config) -> bool {
    spec_resolve_bool(
        args.regex,
        match config.flags {
            Some(f) => f.regex,
            None => None,
        },
        false,
    )
}

pub fn get_app_use_regex(args: &Arguments, config: &Config) -> (r: bool)
    ensures
        r == spec_get_app_use_regex(*args, *config),
{
    resolve_bool(
        args.regex,
        match &config.flags {
            Some(f) => f.regex,
            None => None,
        },
        false,
    )
}

pub open spec fn spec_get_hide_time(args: Arguments, config: Config) -> bool {
    spec_resolve_bool(
        args.hide_time,
        match config.flags {
            Some(f) => f.hide_time,
            None => None,
        },
        false,
    )
}

pub fn get_hide_time(args: &Arguments, config: &Config) -> (r: bool)
    ensures
        r == spec_get_hide_time(*args, *config),
{
    resolve_bool(
        args.hide_time,
        match &config.flags {
            Some(f) => f.hide_time,
            None => None,
        },
        false,
    )
}

pub open spec fn spec_get_autohide_time(args: Arguments, config: Config) -> bool {
    spec_resolve_bool(
        args.autohide_time,
        match config.flags {
            Some(f) => f.autohide_time,
            None => None,
        },
        false,
    )
}

pub fn get_autohide_time(args: &Arguments, config: &Config) -> (r: bool)
    ensures
        r == spec_get_autohide_time(*args, *config),
{
    resolve_bool(
        args.autohide_time,
        match &config.flags {
            Some(f) => f.autohide_time,
            None => None,
        },
        false,
    )
}

pub open spec fn spec_get_disable_click(args: Arguments, config: Config) -> bool {
    spec_resolve_bool(
        args.disable_click,
        match config.flags {
            Some(f) => f.disable_click,
            None => None,
        },
        false,
    )
}

pub fn get_disable_click(args: &Arguments, config: &Config) -> (r: bool)
    ensures
        r == spec_get_disable_click(*args, *config),
{
    resolve_bool(
        args.disable_click,
        match &config.flags {
            Some(f) => f.disable_click,
            None => None,
        },
        false,
    )
}

pub open spec fn spec_get_use_old_network_legend(args: Arguments, config: Config) -> bool {
    spec_resolve_bool(
        args.use_old_network_legend,
        match config.flags {
            Some(f) => f.use_old_network_legend,
            None => None,
        },
        false,
    )
}

pub fn get_use_old_network_legend(args: &Arguments, config: &Config) -> (r: bool)
    ensures
        r == spec_get_use_old_network_legend(*args, *config),
{
    resolve_bool(
        args.use_old_network_legend,
        match &config.flags {
            Some(f) => f.use_old_network_legend,
            None => None,
        },
        false,
    )
}

pub open spec fn spec_get_hide_table_gap(args: Arguments, config: Config) -> bool {
    spec_resolve_bool(
        args.hide_table_gap,
        match config.flags {
            Some(f) => f.hide_table_gap,
            None => None,
        },
        false,
    )
}

pub fn get_hide_table_gap(args: &Arguments, config: &Config) -> (r: bool)
    ensures
        r == spec_get_hide_table_gap(*args, *config),
{
    resolve_bool(
        args.hide_table_gap,
        match &config.flags {
            Some(f) => f.hide_table_gap,
            None => None,
        },
        false,
    )
}

pub open spec fn spec_get_use_battery(args: Arguments, config: Config) -> bool {
    spec_resolve_bool(
        args.battery,
        match config.flags {
            Some(f) => f.battery,
            None => None,
        },
        false,
    )
}

pub fn get_use_battery(args: &Arguments, config: &Config) -> (r: bool)
    ensures
        r == spec_get_use_battery(*args, *config),
{
    resolve_bool(
        args.battery,
        match &config.flags {
            Some(f) => f.battery,
            None => None,
        },
        false,
    )
}

pub open spec fn spec_get_no_write(args: Arguments, config: Config) -> bool {
    spec_resolve_bool(
        args.no_write,
        match config.flags {
            Some(f) => f.no_write,
            None => None,
        },
        false,
    )
}

pub fn get_no_write(args: &Arguments, config: &Config) -> (r: bool)
    ensures
        r == spec_get_no_write(*args, *config),
{
    resolve_bool(
        args.no_write,
        match &config.flags {
            Some(f) => f.no_write,
            None => None,
        },
        false,
    )
}

pub open spec fn spec_get_mem_as_value(args: Arguments, config: Config) -> bool {
    spec_resolve_bool(
        args.mem_as_value,
        match config.flags {
            Some(f) => f.mem_as_value,
            None => None,
        },
        false,
    )
}

pub fn get_mem_as_value(args: &Arguments, config: &Config) -> (r: bool)
    ensures
        r == spec_get_mem_as_value(*args, *config),
{
    resolve_bool(
        args.mem_as_value,
        match &config.flags {
            Some(f) => f.mem_as_value,
            None => None,
        },
        false,
    )
}

pub open spec fn spec_get_is_default_tree(args: Arguments, config: Config) -> bool {
    spec_resolve_bool(
        args.tree,
        match config.flags {
            Some(f) => f.tree,
            None => None,
        },
        false,
    )
}

pub fn get_is_default_tree(args: &Arguments, config: &Config) -> (r: bool)
    ensures
        r == spec_get_is_default_tree(*args, *config),
{
    resolve_bool(
        args.tree,
        match &config.flags {
            Some(f) => f.tree,
            None => None,
        },
        false,
    )
}

pub open spec fn spec_get_show_table_scroll_position(args: Arguments, config: Config) -> bool {
    spec_resolve_bool(
        args.show_table_scroll_position,
        match config.flags {
            Some(f) => f.show_table_scroll_position,
            None => None,
        },
        false,
    )
}

pub fn get_show_table_scroll_position(args: &Arguments, config: &Config) -> (r: bool)
    ensures
        r == spec_get_show_table_scroll_position(*args, *config),
{
    resolve_bool(
        args.show_table_scroll_position,
        match &config.flags {
            Some(f) => f.show_table_scroll_position,
            None => None,
        },
        false,
    )
}

pub open spec fn spec_get_is_default_process_command(args: Arguments, config: Config) -> bool {
    spec_resolve_bool(
        args.process_command,
        match config.flags {
            Some(f) => f.process_command,
            None => None,
        },
        false,
    )
}

pub fn get_is_default_process_command(args: &Arguments, config: &Config) -> (r: bool)
    ensures
        r == spec_get_is_default_process_command(*args, *config),
{
    resolve_bool(
        args.process_command,
        match &config.flags {
            Some(f) => f.process_command,
            None => None,
        },
        false,
    )
}

pub open spec fn spec_get_is_advanced_kill_disabled(args: Arguments, config: Config) -> bool {
    spec_resolve_bool(
        args.disable_advanced_kill,
        match config.flags {
            Some(f) => f.disable_advanced_kill,
            None => None,
        },
        false,
    )
}

pub fn get_is_advanced_kill_disabled(args: &Arguments, config: &Config) -> (r: bool)
    ensures
        r == spec_get_is_advanced_kill_disabled(*args, *config),
{
    resolve_bool(
        args.disable_advanced_kill,
        match &config.flags {
            Some(f) => f.disable_advanced_kill,
            None => None,
        },
        false,
    )
}

pub open spec fn spec_get_network_use_binary_prefix(args: Arguments, config: Config) -> bool {
    spec_resolve_bool(
        args.network_use_binary_prefix,
        match config.flags {
            Some(f) => f.network_use_binary_prefix,
            None => None,
        },
        false,
    )
}

pub fn get_network_use_binary_prefix(args: &Arguments, config: &Config) -> (r: bool)
    ensures
        r == spec_get_network_use_binary_prefix(*args, *config),
{
    resolve_bool(
        args.network_use_binary_prefix,
        match &config.flags {
            Some(f) => f.network_use_binary_prefix,
            None => None,
        },
        false,
    )
}

/// The unit network throughput is shown in: bytes when asked for, bits
/// otherwise.
pub open spec fn spec_get_network_unit_type(args: Arguments, config: Config) -> DataUnit {
    if spec_resolve_bool(
        args.network_use_bytes,
        match config.flags {
            Some(f) => f.network_use_bytes,
            None => None,
        },
        false,
    ) {
        DataUnit::Byte
    } else {
        DataUnit::Bit
    }
}

pub fn get_network_unit_type(args: &Arguments, config: &Config) -> (r: DataUnit)
    ensures
        r == spec_get_network_unit_type(*args, *config),
{
    if resolve_bool(
        args.network_use_bytes,
        match &config.flags {
            Some(f) => f.network_use_bytes,
            None => None,
        },
        false,
    ) {
        DataUnit::Byte
    } else {
        DataUnit::Bit
    }
}

/// How the network axis is scaled: logarithmic when asked for, linear
/// otherwise.
pub open spec fn spec_get_network_scale_type(args: Arguments, config: Config) -> AxisScaling {
    if spec_resolve_bool(
        args.network_use_log,
        match config.flags {
            Some(f) => f.network_use_log,
            None => None,
        },
        false,
    ) {
        AxisScaling::Log
    } else {
        AxisScaling::Linear
    }
}

pub fn get_network_scale_type(args: &Arguments, config: &Config) -> (r: AxisScaling)
    ensures
        r == spec_get_network_scale_type(*args, *config),
{
    if resolve_bool(
        args.network_use_log,
        match &config.flags {
            Some(f) => f.network_use_log,
            None => None,
        },
        false,
    ) {
        AxisScaling::Log
    } else {
        AxisScaling::Linear
    }
}

/// What a temperature-unit literal resolves to.
pub open spec fn spec_temperature_literal(text: String) -> Result<TemperatureType, OptionError> {
    if text@ == "fahrenheit"@ || text@ == "f"@ {
        Ok(TemperatureType::Fahrenheit)
    } else if text@ == "kelvin"@ || text@ == "k"@ {
        Ok(TemperatureType::Kelvin)
    } else if text@ == "celsius"@ || text@ == "c"@ {
        Ok(TemperatureType::Celsius)
    } else {
        Err(OptionError::UnrecognizedTemperatureType { literal: text })
    }
}

/// The resolved temperature unit: a command-line unit flag first (in the
/// fixed order fahrenheit, kelvin, celsius), then the document's literal,
/// then Celsius.
pub open spec fn spec_get_temperature(args: Arguments, config: Config) -> Result<
    TemperatureType,
    OptionError,
> {
    if args.fahrenheit {
        Ok(TemperatureType::Fahrenheit)
    } else if args.kelvin {
        Ok(TemperatureType::Kelvin)
    } else if args.celsius {
        Ok(TemperatureType::Celsius)
    } else {
        match config.flags {
            Some(f) => match f.temperature_type {
                Some(text) => spec_temperature_literal(text),
                None => Ok(TemperatureType::Celsius),
            },
            None => Ok(TemperatureType::Celsius),
        }
    }
}

fn temperature_literal(text: &String) -> (r: Result<TemperatureType, OptionError>)
    ensures
        r == spec_temperature_literal(*text),
{
    if str_eq(text.as_str(), "fahrenheit") || str_eq(text.as_str(), "f") {
        Ok(TemperatureType::Fahrenheit)
    } else if str_eq(text.as_str(), "kelvin") || str_eq(text.as_str(), "k") {
        Ok(TemperatureType::Kelvin)
    } else if str_eq(text.as_str(), "celsius") || str_eq(text.as_str(), "c") {
        Ok(TemperatureType::Celsius)
    } else {
        Err(OptionError::UnrecognizedTemperatureType { literal: text.clone() })
    }
}

pub fn get_temperature(args: &Arguments, config: &Config) -> (r: Result<
    TemperatureType,
    OptionError,
>)
    ensures
        r == spec_get_temperature(*args, *config),
{
    if args.fahrenheit {
        Ok(TemperatureType::Fahrenheit)
    } else if args.kelvin {
        Ok(TemperatureType::Kelvin)
    } else if args.celsius {
        Ok(TemperatureType::Celsius)
    } else {
        match &config.flags {
            Some(f) => match &f.temperature_type {
                Some(text) => temperature_literal(text),
                None => Ok(TemperatureType::Celsius),
            },
            None => Ok(TemperatureType::Celsius),
        }
    }
}

/// The refresh interval's bounds: at least 250 milliseconds, and it must
/// fit the 64-bit storage type.
pub open spec fn spec_check_rate(v: u128) -> Result<u64, OptionError> {
    if v < 250 {
        Err(OptionError::RateBelowMinimum)
    } else if v > u64::MAX as u128 {
        Err(OptionError::RateAboveMaximum)
    } else {
        Ok(v as u64)
    }
}

/// The refresh interval before validation: the command line's parsed
/// text, else the document's value, else the built-in default.
pub open spec fn spec_get_update_rate(args: Arguments, config: Config) -> Result<
    u64,
    OptionError,
> {
    match args.rate {
        Some(text) => match spec_parse_u128(text@) {
            None => Err(OptionError::InvalidNumericText { text }),
            Some(v) => spec_check_rate(v),
        },
        None => match config.flags {
            Some(f) => match f.rate {
                Some(v) => spec_check_rate(v as u128),
                None => spec_check_rate(DEFAULT_REFRESH_RATE_IN_MILLISECONDS as u128),
            },
            None => spec_check_rate(DEFAULT_REFRESH_RATE_IN_MILLISECONDS as u128),
        },
    }
}

fn check_rate(v: u128) -> (r: Result<u64, OptionError>)
    ensures
        r == spec_check_rate(v),
{
    if v < 250 {
        Err(OptionError::RateBelowMinimum)
    } else if v > u64::MAX as u128 {
        Err(OptionError::RateAboveMaximum)
    } else {
        Ok(v as u64)
    }
}

pub fn get_update_rate_in_milliseconds(args: &Arguments, config: &Config) -> (r: Result<
    u64,
    OptionError,
>)
    ensures
        r == spec_get_update_rate(*args, *config),
{
    let candidate: Result<u128, OptionError> = match &args.rate {
        Some(text) => match parse_u128(text.as_str()) {
            Some(v) => Ok(v),
            None => Err(OptionError::InvalidNumericText { text: text.clone() }),
        },
        None => match &config.flags {
            Some(f) => match f.rate {
                Some(v) => Ok(v as u128),
                None => Ok(DEFAULT_REFRESH_RATE_IN_MILLISECONDS as u128),
            },
            None => Ok(DEFAULT_REFRESH_RATE_IN_MILLISECONDS as u128),
        },
    };
    match candidate {
        Ok(v) => check_rate(v),
        Err(e) => Err(e),
    }
}

/// The default time window's bounds: at least 30000 milliseconds and at
/// most the global staleness maximum, with a distinct error for each.
pub open spec fn spec_check_default_time(v: u128) -> Result<u64, OptionError> {
    if v < 30000 {
        Err(OptionError::DefaultTimeBelowMinimum)
    } else if v > STALE_MAX_MILLISECONDS as u128 {
        Err(OptionError::DefaultTimeAboveMaximum)
    } else {
        Ok(v as u64)
    }
}

pub open spec fn spec_get_default_time_value(args: Arguments, config: Config) -> Result<
    u64,
    OptionError,
> {
    match args.default_time_value {
        Some(text) => match spec_parse_u128(text@) {
            None => Err(OptionError::InvalidNumericText { text }),
            Some(v) => spec_check_default_time(v),
        },
        None => match config.flags {
            Some(f) => match f.default_time_value {
                Some(v) => spec_check_default_time(v as u128),
                None => spec_check_default_time(DEFAULT_TIME_MILLISECONDS as u128),
            },
            None => spec_check_default_time(DEFAULT_TIME_MILLISECONDS as u128),
        },
    }
}

fn check_default_time(v: u128) -> (r: Result<u64, OptionError>)
    ensures
        r == spec_check_default_time(v),
{
    if v < 30000 {
        Err(OptionError::DefaultTimeBelowMinimum)
    } else if v > STALE_MAX_MILLISECONDS as u128 {
        Err(OptionError::DefaultTimeAboveMaximum)
    } else {
        Ok(v as u64)
    }
}

pub fn get_default_time_value(args: &Arguments, config: &Config) -> (r: Result<u64, OptionError>)
    ensures
        r == spec_get_default_time_value(*args, *config),
{
    let candidate: Result<u128, OptionError> = match &args.default_time_value {
        Some(text) => match parse_u128(text.as_str()) {
            Some(v) => Ok(v),
            None => Err(OptionError::InvalidNumericText { text: text.clone() }),
        },
        None => match &config.flags {
            Some(f) => match f.default_time_value {
                Some(v) => Ok(v as u128),
                None => Ok(DEFAULT_TIME_MILLISECONDS as u128),
            },
            None => Ok(DEFAULT_TIME_MILLISECONDS as u128),
        },
    };
    match candidate {
        Ok(v) => check_default_time(v),
        Err(e) => Err(e),
    }
}

/// The time-delta step's bounds: at least 1000 milliseconds and at most
/// the global staleness maximum.
pub open spec fn spec_check_time_interval(v: u128) -> Result<u64, OptionError> {
    if v < 1000 {
        Err(OptionError::TimeDeltaBelowMinimum)
    } else if v > STALE_MAX_MILLISECONDS as u128 {
        Err(OptionError::TimeDeltaAboveMaximum)
    } else {
        Ok(v as u64)
    }
}

pub open spec fn spec_get_time_interval(args: Arguments, config: Config) -> Result<
    u64,
    OptionError,
> {
    match args.time_delta {
        Some(text) => match spec_parse_u128(text@) {
            None => Err(OptionError::InvalidNumericText { text }),
            Some(v) => spec_check_time_interval(v),
        },
        None => match config.flags {
            Some(f) => match f.time_delta {
                Some(v) => spec_check_time_interval(v as u128),
                None => spec_check_time_interval(TIME_CHANGE_MILLISECONDS as u128),
            },
            None => spec_check_time_interval(TIME_CHANGE_MILLISECONDS as u128),
        },
    }
}

fn check_time_interval(v: u128) -> (r: Result<u64, OptionError>)
    ensures
        r == spec_check_time_interval(v),
{
    if v < 1000 {
        Err(OptionError::TimeDeltaBelowMinimum)
    } else if v > STALE_MAX_MILLISECONDS as u128 {
        Err(OptionError::TimeDeltaAboveMaximum)
    } else {
        Ok(v as u64)
    }
}

pub fn get_time_interval(args: &Arguments, config: &Config) -> (r: Result<u64, OptionError>)
    ensures
        r == spec_get_time_interval(*args, *config),
{
    let candidate: Result<u128, OptionError> = match &args.time_delta {
        Some(text) => match parse_u128(text.as_str()) {
            Some(v) => Ok(v),
            None => Err(OptionError::InvalidNumericText { text: text.clone() }),
        },
        None => match &config.flags {
            Some(f) => match f.time_delta {
                Some(v) => Ok(v as u128),
                None => Ok(TIME_CHANGE_MILLISECONDS as u128),
            },
            None => Ok(TIME_CHANGE_MILLISECONDS as u128),
        },
    };
    match candidate {
        Ok(v) => check_time_interval(v),
        Err(e) => Err(e),
    }
}

/// What a widget-type literal contributes: the parsed widget, with the
/// "empty" widget standing for no selection at all.
pub open spec fn spec_widget_literal(text: String) -> Result<
    Option<BottomWidgetType>,
    OptionError,
> {
    match spec_parse_widget_type(text@) {
        None => Err(OptionError::UnrecognizedWidgetType { literal: text }),
        Some(w) => Ok(
            if w is Empty {
                None
            } else {
                Some(w)
            },
        ),
    }
}

/// The widget-type half of the default-widget pair.
pub open spec fn spec_widget_type_choice(args: Arguments, config: Config) -> Result<
    Option<BottomWidgetType>,
    OptionError,
> {
    match args.default_widget_type {
        Some(text) => spec_widget_literal(text),
        None => match config.flags {
            Some(f) => match f.default_widget_type {
                Some(text) => spec_widget_literal(text),
                None => Ok(None),
            },
            None => Ok(None),
        },
    }
}

/// The widget-count half of the default-widget pair, still unvalidated.
pub open spec fn spec_widget_count_choice(args: Arguments, config: Config) -> Result<
    Option<u128>,
    OptionError,
> {
    match args.default_widget_count {
        Some(text) => match spec_parse_u128(text@) {
            None => Err(OptionError::InvalidNumericText { text }),
            Some(v) => Ok(Some(v)),
        },
        None => match config.flags {
            Some(f) => match f.default_widget_count {
                Some(v) => Ok(Some(v as u128)),
                None => Ok(None),
            },
            None => Ok(None),
        },
    }
}

/// The resolved default widget and count: a type alone gets count 1, a
/// count alone is a configuration error, neither means no default widget
/// with the fixed count 1, and a pair is returned unchanged once the
/// count fits 64 bits.
pub open spec fn spec_get_default_widget_and_count(args: Arguments, config: Config) -> Result<
    (Option<BottomWidgetType>, u64),
    OptionError,
> {
    match spec_widget_type_choice(args, config) {
        Err(e) => Err(e),
        Ok(wt) => match spec_widget_count_choice(args, config) {
            Err(e) => Err(e),
            Ok(wc) => match (wt, wc) {
                (Some(w), Some(c)) => if c > u64::MAX as u128 {
                    Err(OptionError::WidgetCountAboveMaximum)
                } else {
                    Ok((Some(w), c as u64))
                },
                (Some(w), None) => Ok((Some(w), 1u64)),
                (None, Some(_)) => Err(OptionError::WidgetCountWithoutType),
                (None, None) => Ok((None, 1u64)),
            },
        },
    }
}

fn widget_literal(text: &String) -> (r: Result<Option<BottomWidgetType>, OptionError>)
    ensures
        r == spec_widget_literal(*text),
{
    match parse_widget_type(text.as_str()) {
        None => Err(OptionError::UnrecognizedWidgetType { literal: text.clone() }),
        Some(w) => match w {
            BottomWidgetType::Empty => Ok(None),
            _ => Ok(Some(w)),
        },
    }
}

pub fn get_default_widget_and_count(args: &Arguments, config: &Config) -> (r: Result<
    (Option<BottomWidgetType>, u64),
    OptionError,
>)
    ensures
        r == spec_get_default_widget_and_count(*args, *config),
{
    let widget_type: Result<Option<BottomWidgetType>, OptionError> = match &args
        .default_widget_type {
        Some(text) => widget_literal(text),
        None => match &config.flags {
            Some(f) => match &f.default_widget_type {
                Some(text) => widget_literal(text),
                None => Ok(None),
            },
            None => Ok(None),
        },
    };
    let widget_count: Result<Option<u128>, OptionError> = match &args.default_widget_count {
        Some(text) => match parse_u128(text.as_str()) {
            Some(v) => Ok(Some(v)),
            None => Err(OptionError::InvalidNumericText { text: text.clone() }),
        },
        None => match &config.flags {
            Some(f) => match f.default_widget_count {
                Some(v) => Ok(Some(v as u128)),
                None => Ok(None),
            },
            None => Ok(None),
        },
    };
    match widget_type {
        Err(e) => Err(e),
        Ok(wt) => match widget_count {
            Err(e) => Err(e),
            Ok(wc) => match (wt, wc) {
                (Some(w), Some(c)) => if c > u64::MAX as u128 {
                    Err(OptionError::WidgetCountAboveMaximum)
                } else {
                    Ok((Some(w), c as u64))
                },
                (Some(w), None) => Ok((Some(w), 1u64)),
                (None, Some(_)) => Err(OptionError::WidgetCountWithoutType),
                (None, None) => Ok((None, 1u64)),
            },
        },
    }
}

/// What a color-scheme literal resolves to.
pub open spec fn spec_color_literal(text: String) -> Result<ColorScheme, OptionError> {
    match spec_parse_color_scheme(text@) {
        Some(c) => Ok(c),
        None => Err(OptionError::UnrecognizedColorScheme { literal: text }),
    }
}

/// The resolved color scheme, by its own four-level chain: the command
/// line's scheme name first; then, when the document carries any
/// non-empty custom-color sub-section, the fixed "Custom" scheme,
/// whatever named scheme the document's flag may simultaneously carry;
/// then the document's named scheme; then the built-in default.
pub open spec fn spec_get_color_scheme(args: Arguments, config: Config) -> Result<
    ColorScheme,
    OptionError,
> {
    match args.color {
        Some(text) => spec_color_literal(text),
        None => match config.colors {
            Some(cols) => if !spec_colors_empty(cols) {
                Ok(ColorScheme::Custom)
            } else {
                match config.flags {
                    Some(f) => match f.color {
                        Some(text) => spec_color_literal(text),
                        None => Ok(ColorScheme::Default),
                    },
                    None => Ok(ColorScheme::Default),
                }
            },
            None => match config.flags {
                Some(f) => match f.color {
                    Some(text) => spec_color_literal(text),
                    None => Ok(ColorScheme::Default),
                },
                None => Ok(ColorScheme::Default),
            },
        },
    }
}

fn color_literal(text: &String) -> (r: Result<ColorScheme, OptionError>)
    ensures
        r == spec_color_literal(*text),
{
    match parse_color_scheme(text.as_str()) {
        Some(c) => Ok(c),
        None => Err(OptionError::UnrecognizedColorScheme { literal: text.clone() }),
    }
}

pub fn get_color_scheme(args: &Arguments, config: &Config) -> (r: Result<ColorScheme, OptionError>)
    ensures
        r == spec_get_color_scheme(*args, *config),
{
    match &args.color {
        Some(text) => color_literal(text),
        None => match &config.colors {
            Some(cols) => if !cols.is_empty() {
                Ok(ColorScheme::Custom)
            } else {
                match &config.flags {
                    Some(f) => match &f.color {
                        Some(text) => color_literal(text),
                        None => Ok(ColorScheme::Default),
                    },
                    None => Ok(ColorScheme::Default),
                }
            },
            None => match &config.flags {
                Some(f) => match &f.color {
                    Some(text) => color_literal(text),
                    None => Ok(ColorScheme::Default),
                },
                None => Ok(ColorScheme::Default),
            },
        },
    }
}

/// Law: whenever the command line names no scheme and the document's
/// custom-color sub-section is present and non-empty, the "Custom"
/// scheme is selected, whatever named scheme the document also carries.
pub proof fn lemma_custom_colors_win(args: Arguments, config: Config)
    requires
        args.color is None,
        config.colors matches Some(cols) && !spec_colors_empty(cols),
    ensures
        spec_get_color_scheme(args, config) == Ok::<ColorScheme, OptionError>(ColorScheme::Custom),
{
}

} // verus!
