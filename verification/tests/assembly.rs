use std::collections::HashMap;

use bottom_config::args::Arguments;
use bottom_config::constants::STALE_MAX_MILLISECONDS;
use bottom_config::config::{Config, ConfigColors, ConfigFlags, IgnoreList, WidgetIdEnabled};
use bottom_config::error::{FilterKind, OptionError};
use bottom_config::options::{build_app, get_widget_layout};
use bottom_config::text::parse_u128;
use bottom_config::widgets::{AxisScaling, BottomWidgetType, DataUnit, TemperatureType};

#[test]
fn build_app_with_all_sources_silent_uses_every_default() {
    let state = build_app(&Arguments::default(), &Config::default(), 56).unwrap();
    let fields = &state.app_config_fields;
    assert_eq!(fields.update_rate_in_milliseconds, 1000);
    assert_eq!(fields.temperature_type, TemperatureType::Celsius);
    assert!(fields.show_average_cpu);
    assert!(!fields.use_dot);
    assert!(!fields.left_legend);
    assert!(!fields.use_current_cpu_total);
    assert!(!fields.use_basic_mode);
    assert_eq!(fields.default_time_value, 60000);
    assert_eq!(fields.time_interval, 15000);
    assert!(!fields.hide_time);
    assert!(!fields.autohide_time);
    assert!(!fields.use_old_network_legend);
    assert_eq!(fields.table_gap, 1);
    assert!(!fields.disable_click);
    assert!(!fields.no_write);
    assert!(!fields.show_table_scroll_position);
    assert!(fields.is_advanced_kill);
    assert_eq!(fields.network_scale_type, AxisScaling::Linear);
    assert_eq!(fields.network_unit_type, DataUnit::Bit);
    assert!(!fields.network_use_binary_prefix);
    assert!(state.basic_table_widget_state.is_none());
    assert!(state.filters.disk_filter.is_none());
    assert!(state.filters.mount_filter.is_none());
    assert!(state.filters.temp_filter.is_none());
    assert!(state.filters.net_filter.is_none());
    assert!(state.proc_state_map.is_empty());
}

#[test]
fn build_app_in_basic_mode_carries_the_summary_record() {
    let args = Arguments { basic: true, ..Default::default() };
    let state = build_app(&args, &Config::default(), 56).unwrap();
    assert!(state.app_config_fields.use_basic_mode);
    let basic = state.basic_table_widget_state.unwrap();
    assert_eq!(basic.currently_displayed_widget_type, BottomWidgetType::Proc);
    assert_eq!(basic.currently_displayed_widget_id, 56);
    assert_eq!(basic.widget_id, 100);
    assert!(basic.left_tlc.is_none());
    assert!(basic.left_brc.is_none());
    assert!(basic.right_tlc.is_none());
    assert!(basic.right_brc.is_none());
}

#[test]
fn build_app_hide_table_gap_zeroes_the_gap() {
    let args = Arguments { hide_table_gap: true, ..Default::default() };
    let state = build_app(&args, &Config::default(), 1).unwrap();
    assert_eq!(state.app_config_fields.table_gap, 0);
}

#[test]
fn build_app_reports_the_first_error_in_resolution_order() {
    let config = Config {
        flags: Some(ConfigFlags {
            default_time_value: Some(100),
            rate: Some(1),
            ..Default::default()
        }),
        ..Default::default()
    };
    assert_eq!(
        build_app(&Arguments::default(), &config, 1).unwrap_err(),
        OptionError::DefaultTimeBelowMinimum
    );
    let config = Config {
        flags: Some(ConfigFlags { rate: Some(1), ..Default::default() }),
        ..Default::default()
    };
    assert_eq!(
        build_app(&Arguments::default(), &config, 1).unwrap_err(),
        OptionError::RateBelowMinimum
    );
}

#[test]
fn build_app_compiles_the_filters_and_names_the_failing_one() {
    let good = IgnoreList {
        is_list_ignored: true,
        list: vec!["sda".to_string()],
        regex: false,
        case_sensitive: false,
        whole_word: false,
    };
    let bad = IgnoreList { regex: true, list: vec!["(".to_string()], ..good.clone() };
    let config = Config {
        disk_filter: Some(good.clone()),
        net_filter: Some(bad),
        ..Default::default()
    };
    match build_app(&Arguments::default(), &config, 1) {
        Err(OptionError::FilterCompileFailure { kind, .. }) => assert_eq!(kind, FilterKind::Net),
        other => panic!("expected a filter compile failure, got {:?}", other),
    }
    let config = Config { mount_filter: Some(good), ..Default::default() };
    let state = build_app(&Arguments::default(), &config, 1).unwrap();
    let mount = state.filters.mount_filter.unwrap();
    assert!(mount.list[0].is_match("sda1"));
}

#[test]
fn build_app_applies_search_overrides_to_live_widgets_only() {
    let config = Config {
        flags: Some(ConfigFlags {
            search_case_enabled_widgets: Some(vec![WidgetIdEnabled { id: 5, enabled: true }]),
            ..Default::default()
        }),
        ..Default::default()
    };
    let state = build_app(&Arguments::default(), &config, 1).unwrap();
    assert!(state.proc_state_map.is_empty());
}

#[test]
fn widget_layout_is_the_default_stub() {
    let (_, id, widget) = get_widget_layout(&Arguments::default(), &Config::default()).unwrap();
    assert_eq!(id, 0);
    assert!(widget.is_none());
}

#[test]
fn colors_emptiness_reflects_explicit_fields() {
    assert!(ConfigColors::default().is_empty());
    let colors = ConfigColors {
        text_color: Some("#ffffff".to_string()),
        ..Default::default()
    };
    assert!(!colors.is_empty());
}

#[test]
fn widget_id_pairs_from_hashmap() {
    let mut map: HashMap<u64, bool> = HashMap::new();
    map.insert(1, true);
    map.insert(2, false);
    let pairs = WidgetIdEnabled::create_from_hashmap(&map);
    assert_eq!(pairs.len(), 2);
    for pair in &pairs {
        assert_eq!(pair.enabled, map[&pair.id]);
    }
    assert_ne!(pairs[0].id, pairs[1].id);
}

#[test]
fn numeric_text_parses_at_128_bits() {
    assert_eq!(parse_u128("0"), Some(0));
    assert_eq!(parse_u128("+123"), Some(123));
    assert_eq!(parse_u128(""), None);
    assert_eq!(parse_u128("+"), None);
    assert_eq!(parse_u128("12a"), None);
    assert_eq!(parse_u128("-1"), None);
    assert_eq!(
        parse_u128("340282366920938463463374607431768211455"),
        Some(u128::MAX)
    );
    assert_eq!(parse_u128("340282366920938463463374607431768211456"), None);
}

#[test]
fn error_messages_name_key_and_constraint() {
    assert_eq!(
        OptionError::RateBelowMinimum.describe(),
        "set your update rate to be at least 250 milliseconds."
    );
    assert_eq!(
        OptionError::DefaultTimeAboveMaximum.describe(),
        format!(
            "set your default value to be at most {} milliseconds.",
            STALE_MAX_MILLISECONDS
        )
    );
    assert_eq!(
        OptionError::TimeDeltaAboveMaximum.describe(),
        format!(
            "set your time delta to be at most {} milliseconds.",
            STALE_MAX_MILLISECONDS
        )
    );
    assert_eq!(
        OptionError::InvalidNumericText { text: "12a".to_string() }.describe(),
        "'12a' is not a valid unsigned number."
    );
    assert_eq!(
        OptionError::UnrecognizedTemperatureType { literal: "xyz".to_string() }.describe(),
        "\"xyz\" is an invalid temperature type, use \"<kelvin|k|celsius|c|fahrenheit|f>\"."
    );
    assert_eq!(
        OptionError::WidgetCountWithoutType.describe(),
        "cannot set 'default_widget_count' by itself, it must be used with 'default_widget_type'."
    );
    assert_eq!(
        OptionError::FilterCompileFailure {
            kind: FilterKind::Disk,
            message: "unclosed group".to_string(),
        }
        .describe(),
        "update 'disk_filter' in your config file: unclosed group"
    );
}

#[test]
fn first_failing_filter_is_named_in_document_order() {
    let bad = IgnoreList {
        is_list_ignored: true,
        list: vec!["(".to_string()],
        regex: true,
        case_sensitive: false,
        whole_word: false,
    };
    let config = Config {
        disk_filter: Some(bad.clone()),
        net_filter: Some(bad),
        ..Default::default()
    };
    match build_app(&Arguments::default(), &config, 1) {
        Err(OptionError::FilterCompileFailure { kind, .. }) => assert_eq!(kind, FilterKind::Disk),
        other => panic!("expected a filter compile failure, got {:?}", other),
    }
}
