//! The typed failures that configuration resolution can surface.
//!
//! Every fallible step of the resolution pipeline fails eagerly with one of
//! these values; there is no partial or warning mode. Each variant names the
//! violated constraint, and variants about a user-supplied literal carry the
//! offending text.

use vstd::prelude::*;
use vstd::string::StringExecFns;

verus! {

/// Which of the four named ignore-list specifications a filter error is
/// about.
#[derive(Clone, Copy, Debug, PartialEq, Eq, Structural)]
pub enum FilterKind {
    Disk,
    Mount,
    Temp,
    Net,
}

/// A configuration defect detected during resolution or filter compilation.
#[derive(Clone, Debug, PartialEq)]
pub enum OptionError {
    /// A numeric option's text was not a number that fits the parser's
    /// 128-bit working width.
    InvalidNumericText { text: String },
    /// The refresh interval was below its minimum of 250 milliseconds.
    RateBelowMinimum,
    /// The refresh interval did not fit in the 64-bit storage type.
    RateAboveMaximum,
    /// The default time window was below its minimum of 30000 milliseconds.
    DefaultTimeBelowMinimum,
    /// The default time window exceeded the global staleness maximum.
    DefaultTimeAboveMaximum,
    /// The time-delta step was below its minimum of 1000 milliseconds.
    TimeDeltaBelowMinimum,
    /// The time-delta step exceeded the global staleness maximum.
    TimeDeltaAboveMaximum,
    /// The default widget count did not fit in the 64-bit storage type.
    WidgetCountAboveMaximum,
    /// A widget count was supplied without an accompanying widget type.
    WidgetCountWithoutType,
    /// The temperature unit literal was not one of the documented aliases.
    UnrecognizedTemperatureType { literal: String },
    /// The default widget type literal named no known widget.
    UnrecognizedWidgetType { literal: String },
    /// The color scheme literal named no built-in scheme.
    UnrecognizedColorScheme { literal: String },
    /// An entry of the named ignore list failed to compile as a pattern;
    /// the message is the pattern engine's own description.
    FilterCompileFailure { kind: FilterKind, message: String },
}


/// The configuration key under which each named ignore list stands.
pub open spec fn spec_filter_section(kind: FilterKind) -> Seq<char> {
    match kind {
        FilterKind::Disk => "disk_filter"@,
        FilterKind::Mount => "mount_filter"@,
        FilterKind::Temp => "temp_filter"@,
        FilterKind::Net => "net_filter"@,
    }
}

/// The human-readable message for each failure: the offending
/// configuration key and the violated constraint, with any carried
/// literal text embedded.
pub open spec fn spec_describe(e: OptionError) -> Seq<char> {
    match e {
        OptionError::InvalidNumericText { text } => (
        "'"@ + text@ + "' is not a valid unsigned number."@),
        OptionError::RateBelowMinimum => "set your update rate to be at least 250 milliseconds."@,
        OptionError::RateAboveMaximum => "set your update rate to be at most unsigned INT_MAX."@,
        OptionError::DefaultTimeBelowMinimum => (
        "set your default value to be at least 30000 milliseconds."@),
        OptionError::DefaultTimeAboveMaximum => (
        "set your default value to be at most 600000 milliseconds."@),
        OptionError::TimeDeltaBelowMinimum => (
        "set your time delta to be at least 1000 milliseconds."@),
        OptionError::TimeDeltaAboveMaximum => (
        "set your time delta to be at most 600000 milliseconds."@),
        OptionError::WidgetCountAboveMaximum => (
        "set your widget count to be at most unsigned INT_MAX."@),
        OptionError::WidgetCountWithoutType => (
        "cannot set 'default_widget_count' by itself, it must be used with 'default_widget_type'."@),
        OptionError::UnrecognizedTemperatureType { literal } => (
        "\""@ + literal@
            + "\" is an invalid temperature type, use \"<kelvin|k|celsius|c|fahrenheit|f>\"."@),
        OptionError::UnrecognizedWidgetType { literal } => (
        "\""@ + literal@ + "\" is an invalid widget name."@),
        OptionError::UnrecognizedColorScheme { literal } => (
        "\""@ + literal@ + "\" is an invalid color scheme."@),
        OptionError::FilterCompileFailure { kind, message } => (
        "update '"@ + spec_filter_section(kind) + "' in your config file: "@ + message@),
    }
}

impl OptionError {
    /// Renders this failure as its human-readable message.
    pub fn describe(&self) -> (r: String)
        ensures
            r@ == spec_describe(*self),
    {
        let r: String = match self {
            OptionError::InvalidNumericText { text } => {
                let mut s = String::from_str("'");
                s.append(text.as_str());
                s.append("' is not a valid unsigned number.");
                s
            },
            OptionError::RateBelowMinimum => String::from_str(
                "set your update rate to be at least 250 milliseconds.",
            ),
            OptionError::RateAboveMaximum => String::from_str(
                "set your update rate to be at most unsigned INT_MAX.",
            ),
            OptionError::DefaultTimeBelowMinimum => String::from_str(
                "set your default value to be at least 30000 milliseconds.",
            ),
            OptionError::DefaultTimeAboveMaximum => String::from_str(
                "set your default value to be at most 600000 milliseconds.",
            ),
            OptionError::TimeDeltaBelowMinimum => String::from_str(
                "set your time delta to be at least 1000 milliseconds.",
            ),
            OptionError::TimeDeltaAboveMaximum => String::from_str(
                "set your time delta to be at most 600000 milliseconds.",
            ),
            OptionError::WidgetCountAboveMaximum => String::from_str(
                "set your widget count to be at most unsigned INT_MAX.",
            ),
            OptionError::WidgetCountWithoutType => String::from_str(
                "cannot set 'default_widget_count' by itself, it must be used with 'default_widget_type'.",
            ),
            OptionError::UnrecognizedTemperatureType { literal } => {
                let mut s = String::from_str("\"");
                s.append(literal.as_str());
                s.append(
                    "\" is an invalid temperature type, use \"<kelvin|k|celsius|c|fahrenheit|f>\".",
                );
                s
            },
            OptionError::UnrecognizedWidgetType { literal } => {
                let mut s = String::from_str("\"");
                s.append(literal.as_str());
                s.append("\" is an invalid widget name.");
                s
            },
            OptionError::UnrecognizedColorScheme { literal } => {
                let mut s = String::from_str("\"");
                s.append(literal.as_str());
                s.append("\" is an invalid color scheme.");
                s
            },
            OptionError::FilterCompileFailure { kind, message } => {
                let mut s = String::from_str("update '");
                match kind {
                    FilterKind::Disk => s.append("disk_filter"),
                    FilterKind::Mount => s.append("mount_filter"),
                    FilterKind::Temp => s.append("temp_filter"),
                    FilterKind::Net => s.append("net_filter"),
                }
                s.append("' in your config file: ");
                s.append(message.as_str());
                s
            },
        };
        proof {
            assert(r@ =~= spec_describe(*self));
        }
        r
    }
}

} // verus!
