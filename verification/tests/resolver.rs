use bottom_config::args::Arguments;
use bottom_config::config::{Config, ConfigColors, ConfigFlags};
use bottom_config::error::OptionError;
use bottom_config::options::basic_table_state;
use bottom_config::resolve::{
    get_app_case_sensitive, get_app_grouping, get_app_match_whole_word, get_app_use_regex,
    get_autohide_time, get_color_scheme, get_default_time_value, get_default_widget_and_count,
    get_disable_click, get_hide_table_gap, get_hide_time, get_is_advanced_kill_disabled,
    get_is_default_process_command, get_is_default_tree, get_mem_as_value,
    get_network_scale_type, get_network_unit_type, get_network_use_binary_prefix, get_no_write,
    get_show_average_cpu, get_show_table_scroll_position, get_temperature, get_time_interval,
    get_update_rate_in_milliseconds, get_use_basic_mode, get_use_battery,
    get_use_current_cpu_total, get_use_dot, get_use_left_legend, get_use_old_network_legend,
};
use bottom_config::widgets::parse_widget_type;
use bottom_config::widgets::{AxisScaling, BottomWidgetType, ColorScheme, DataUnit, TemperatureType};

fn flags_config(flags: ConfigFlags) -> Config {
    Config { flags: Some(flags), ..Default::default() }
}

#[test]
fn bool_cli_beats_document() {
    let args = Arguments { dot_marker: true, ..Default::default() };
    let config = flags_config(ConfigFlags { dot_marker: Some(false), ..Default::default() });
    assert!(get_use_dot(&args, &config));
}

#[test]
fn bool_document_beats_default() {
    let args = Arguments::default();
    let config = flags_config(ConfigFlags { dot_marker: Some(true), ..Default::default() });
    assert!(get_use_dot(&args, &config));
    let config = flags_config(ConfigFlags { dot_marker: Some(false), ..Default::default() });
    assert!(!get_use_dot(&args, &config));
}

#[test]
fn bool_default_when_all_silent() {
    let args = Arguments::default();
    assert!(!get_use_dot(&args, &Config::default()));
    assert!(!get_app_case_sensitive(&args, &Config::default()));
}

#[test]
fn show_average_cpu_defaults_on_and_is_stored_inverted() {
    let args = Arguments::default();
    assert!(get_show_average_cpu(&args, &Config::default()));
    let config = flags_config(ConfigFlags { hide_avg_cpu: Some(true), ..Default::default() });
    assert!(!get_show_average_cpu(&args, &config));
    let cli = Arguments { hide_avg_cpu: true, ..Default::default() };
    let config = flags_config(ConfigFlags { hide_avg_cpu: Some(false), ..Default::default() });
    assert!(!get_show_average_cpu(&cli, &config));
}

#[test]
fn temperature_cli_beats_document() {
    let args = Arguments { celsius: true, ..Default::default() };
    let config = flags_config(ConfigFlags {
        temperature_type: Some("fahrenheit".to_string()),
        ..Default::default()
    });
    assert_eq!(get_temperature(&args, &config), Ok(TemperatureType::Celsius));
}

#[test]
fn temperature_document_aliases() {
    let args = Arguments::default();
    for (text, expected) in [
        ("fahrenheit", TemperatureType::Fahrenheit),
        ("f", TemperatureType::Fahrenheit),
        ("kelvin", TemperatureType::Kelvin),
        ("k", TemperatureType::Kelvin),
        ("celsius", TemperatureType::Celsius),
        ("c", TemperatureType::Celsius),
    ] {
        let config = flags_config(ConfigFlags {
            temperature_type: Some(text.to_string()),
            ..Default::default()
        });
        assert_eq!(get_temperature(&args, &config), Ok(expected));
    }
    assert_eq!(get_temperature(&args, &Config::default()), Ok(TemperatureType::Celsius));
}

#[test]
fn temperature_unrecognized_literal_is_an_error() {
    let args = Arguments::default();
    let config = flags_config(ConfigFlags {
        temperature_type: Some("Fahrenheit".to_string()),
        ..Default::default()
    });
    assert_eq!(
        get_temperature(&args, &config),
        Err(OptionError::UnrecognizedTemperatureType { literal: "Fahrenheit".to_string() })
    );
}

#[test]
fn rate_bounds() {
    let config = Config::default();
    let at = |text: &str| {
        let args = Arguments { rate: Some(text.to_string()), ..Default::default() };
        get_update_rate_in_milliseconds(&args, &config)
    };
    assert_eq!(at("249"), Err(OptionError::RateBelowMinimum));
    assert_eq!(at("250"), Ok(250));
    assert_eq!(at("18446744073709551616"), Err(OptionError::RateAboveMaximum));
    assert_eq!(at("18446744073709551615"), Ok(u64::MAX));
    assert_eq!(
        at("oops"),
        Err(OptionError::InvalidNumericText { text: "oops".to_string() })
    );
    assert_eq!(
        at("340282366920938463463374607431768211456"),
        Err(OptionError::InvalidNumericText {
            text: "340282366920938463463374607431768211456".to_string()
        })
    );
}

#[test]
fn rate_default_and_document() {
    let args = Arguments::default();
    assert_eq!(get_update_rate_in_milliseconds(&args, &Config::default()), Ok(1000));
    let config = flags_config(ConfigFlags { rate: Some(500), ..Default::default() });
    assert_eq!(get_update_rate_in_milliseconds(&args, &config), Ok(500));
    let config = flags_config(ConfigFlags { rate: Some(100), ..Default::default() });
    assert_eq!(
        get_update_rate_in_milliseconds(&args, &config),
        Err(OptionError::RateBelowMinimum)
    );
}

#[test]
fn default_time_bounds() {
    let config = Config::default();
    let at = |text: &str| {
        let args = Arguments { default_time_value: Some(text.to_string()), ..Default::default() };
        get_default_time_value(&args, &config)
    };
    assert_eq!(at("29999"), Err(OptionError::DefaultTimeBelowMinimum));
    assert_eq!(at("30000"), Ok(30000));
    assert_eq!(at("600000"), Ok(600000));
    assert_eq!(at("600001"), Err(OptionError::DefaultTimeAboveMaximum));
    assert_eq!(
        get_default_time_value(&Arguments::default(), &Config::default()),
        Ok(60000)
    );
}

#[test]
fn time_delta_bounds() {
    let config = Config::default();
    let at = |text: &str| {
        let args = Arguments { time_delta: Some(text.to_string()), ..Default::default() };
        get_time_interval(&args, &config)
    };
    assert_eq!(at("999"), Err(OptionError::TimeDeltaBelowMinimum));
    assert_eq!(at("1000"), Ok(1000));
    assert_eq!(at("600001"), Err(OptionError::TimeDeltaAboveMaximum));
    assert_eq!(get_time_interval(&Arguments::default(), &Config::default()), Ok(15000));
}

#[test]
fn widget_type_alone_gets_count_one() {
    let args = Arguments {
        default_widget_type: Some("cpu".to_string()),
        ..Default::default()
    };
    assert_eq!(
        get_default_widget_and_count(&args, &Config::default()),
        Ok((Some(BottomWidgetType::Cpu), 1))
    );
}

#[test]
fn widget_count_alone_is_an_error() {
    let args = Arguments {
        default_widget_count: Some("3".to_string()),
        ..Default::default()
    };
    assert_eq!(
        get_default_widget_and_count(&args, &Config::default()),
        Err(OptionError::WidgetCountWithoutType)
    );
}

#[test]
fn widget_neither_gives_no_widget_and_count_one() {
    assert_eq!(
        get_default_widget_and_count(&Arguments::default(), &Config::default()),
        Ok((None, 1))
    );
}

#[test]
fn widget_both_valid_pass_through() {
    let args = Arguments {
        default_widget_type: Some("proc".to_string()),
        default_widget_count: Some("2".to_string()),
        ..Default::default()
    };
    assert_eq!(
        get_default_widget_and_count(&args, &Config::default()),
        Ok((Some(BottomWidgetType::Proc), 2))
    );
}

#[test]
fn widget_count_must_fit_64_bits() {
    let args = Arguments {
        default_widget_type: Some("proc".to_string()),
        default_widget_count: Some("18446744073709551616".to_string()),
        ..Default::default()
    };
    assert_eq!(
        get_default_widget_and_count(&args, &Config::default()),
        Err(OptionError::WidgetCountAboveMaximum)
    );
}

#[test]
fn widget_empty_counts_as_no_type() {
    let args = Arguments {
        default_widget_type: Some("empty".to_string()),
        default_widget_count: Some("2".to_string()),
        ..Default::default()
    };
    assert_eq!(
        get_default_widget_and_count(&args, &Config::default()),
        Err(OptionError::WidgetCountWithoutType)
    );
}

#[test]
fn widget_unrecognized_literal_is_an_error() {
    let args = Arguments {
        default_widget_type: Some("flux".to_string()),
        ..Default::default()
    };
    let config = flags_config(ConfigFlags {
        default_widget_type: Some("cpu".to_string()),
        ..Default::default()
    });
    assert_eq!(
        get_default_widget_and_count(&args, &config),
        Err(OptionError::UnrecognizedWidgetType { literal: "flux".to_string() })
    );
}

#[test]
fn custom_colors_beat_named_scheme() {
    let args = Arguments::default();
    let config = Config {
        colors: Some(ConfigColors {
            ram_color: Some("#0000ff".to_string()),
            ..Default::default()
        }),
        flags: Some(ConfigFlags { color: Some("gruvbox".to_string()), ..Default::default() }),
        ..Default::default()
    };
    assert_eq!(get_color_scheme(&args, &config), Ok(ColorScheme::Custom));
}

#[test]
fn cli_color_beats_custom_colors() {
    let args = Arguments { color: Some("nord".to_string()), ..Default::default() };
    let config = Config {
        colors: Some(ConfigColors {
            ram_color: Some("#0000ff".to_string()),
            ..Default::default()
        }),
        ..Default::default()
    };
    assert_eq!(get_color_scheme(&args, &config), Ok(ColorScheme::Nord));
}

#[test]
fn empty_color_section_falls_through_to_named_scheme() {
    let args = Arguments::default();
    let config = Config {
        colors: Some(ConfigColors::default()),
        flags: Some(ConfigFlags {
            color: Some("gruvbox-light".to_string()),
            ..Default::default()
        }),
        ..Default::default()
    };
    assert_eq!(get_color_scheme(&args, &config), Ok(ColorScheme::GruvboxLight));
    assert_eq!(
        get_color_scheme(&args, &Config::default()),
        Ok(ColorScheme::Default)
    );
}

#[test]
fn unrecognized_color_scheme_is_an_error() {
    let args = Arguments { color: Some("sepia".to_string()), ..Default::default() };
    assert_eq!(
        get_color_scheme(&args, &Config::default()),
        Err(OptionError::UnrecognizedColorScheme { literal: "sepia".to_string() })
    );
}

#[test]
fn network_unit_and_scale() {
    let args = Arguments::default();
    assert_eq!(get_network_unit_type(&args, &Config::default()), DataUnit::Bit);
    assert_eq!(get_network_scale_type(&args, &Config::default()), AxisScaling::Linear);
    let cli = Arguments { network_use_bytes: true, network_use_log: true, ..Default::default() };
    assert_eq!(get_network_unit_type(&cli, &Config::default()), DataUnit::Byte);
    assert_eq!(get_network_scale_type(&cli, &Config::default()), AxisScaling::Log);
    let config = flags_config(ConfigFlags {
        network_use_bytes: Some(false),
        network_use_log: Some(false),
        ..Default::default()
    });
    assert_eq!(get_network_unit_type(&args, &config), DataUnit::Bit);
    assert_eq!(get_network_scale_type(&args, &config), AxisScaling::Linear);
}

#[test]
fn every_presence_switch_short_circuits_to_true() {
    let config = Config::default();
    let all = Arguments {
        autohide_time: true,
        basic: true,
        battery: true,
        case_sensitive: true,
        current_usage: true,
        disable_advanced_kill: true,
        disable_click: true,
        dot_marker: true,
        group: true,
        hide_table_gap: true,
        hide_time: true,
        left_legend: true,
        mem_as_value: true,
        network_use_binary_prefix: true,
        no_write: true,
        process_command: true,
        regex: true,
        show_table_scroll_position: true,
        tree: true,
        use_old_network_legend: true,
        whole_word: true,
        ..Default::default()
    };
    assert!(get_app_grouping(&all, &config));
    assert!(get_app_case_sensitive(&all, &config));
    assert!(get_app_match_whole_word(&all, &config));
    assert!(get_app_use_regex(&all, &config));
    assert!(get_autohide_time(&all, &config));
    assert!(get_disable_click(&all, &config));
    assert!(get_hide_table_gap(&all, &config));
    assert!(get_hide_time(&all, &config));
    assert!(get_is_advanced_kill_disabled(&all, &config));
    assert!(get_is_default_process_command(&all, &config));
    assert!(get_is_default_tree(&all, &config));
    assert!(get_mem_as_value(&all, &config));
    assert!(get_network_use_binary_prefix(&all, &config));
    assert!(get_no_write(&all, &config));
    assert!(get_show_table_scroll_position(&all, &config));
    assert!(get_use_basic_mode(&all, &config));
    assert!(get_use_battery(&all, &config));
    assert!(get_use_current_cpu_total(&all, &config));
    assert!(get_use_left_legend(&all, &config));
    assert!(get_use_old_network_legend(&all, &config));
    assert!(get_use_dot(&all, &config));
}

#[test]
fn widget_type_aliases() {
    for (text, expected) in [
        ("cpu", BottomWidgetType::Cpu),
        ("mem", BottomWidgetType::Mem),
        ("memory", BottomWidgetType::Mem),
        ("net", BottomWidgetType::Net),
        ("network", BottomWidgetType::Net),
        ("proc", BottomWidgetType::Proc),
        ("process", BottomWidgetType::Proc),
        ("processes", BottomWidgetType::Proc),
        ("temp", BottomWidgetType::Temp),
        ("temperature", BottomWidgetType::Temp),
        ("disk", BottomWidgetType::Disk),
        ("empty", BottomWidgetType::Empty),
        ("battery", BottomWidgetType::Battery),
        ("batt", BottomWidgetType::Battery),
    ] {
        assert_eq!(parse_widget_type(text), Some(expected));
    }
    assert_eq!(parse_widget_type("CPU"), None);
}

#[test]
fn basic_table_fallback_for_non_table_widgets() {
    let kept = basic_table_state(BottomWidgetType::Disk, 7);
    assert_eq!(kept.currently_displayed_widget_type, BottomWidgetType::Disk);
    assert_eq!(kept.currently_displayed_widget_id, 7);
    assert_eq!(kept.widget_id, 100);
    let fell_back = basic_table_state(BottomWidgetType::Cpu, 7);
    assert_eq!(fell_back.currently_displayed_widget_type, BottomWidgetType::Proc);
    assert_eq!(fell_back.currently_displayed_widget_id, 56);
    assert_eq!(fell_back.widget_id, 100);
}
