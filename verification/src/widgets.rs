//! Widget kinds, display-unit enums, per-widget search state, and the
//! literal aliases under which the string-enum settings are written.

use vstd::prelude::*;
use crate::text::str_eq;

verus! {

/// The kinds of dashboard widget a layout can name.
#[derive(Clone, Copy, Debug, PartialEq, Eq, Structural)]
pub enum BottomWidgetType {
    Empty,
    Cpu,
    Mem,
    Net,
    Proc,
    Temp,
    Disk,
    Battery,
}

/// The unit in which temperatures are reported.
#[derive(Clone, Copy, Debug, PartialEq, Eq, Structural)]
pub enum TemperatureType {
    Celsius,
    Kelvin,
    Fahrenheit,
}

/// The unit in which network throughput is displayed.
#[derive(Clone, Copy, Debug, PartialEq, Eq, Structural)]
pub enum DataUnit {
    Byte,
    Bit,
}

/// How the network graph's axis is scaled.
#[derive(Clone, Copy, Debug, PartialEq, Eq, Structural)]
pub enum AxisScaling {
    Log,
    Linear,
}

/// The color scheme finally selected for drawing.
#[derive(Clone, Copy, Debug, PartialEq, Eq, Structural)]
pub enum ColorScheme {
    Default,
    DefaultLight,
    Gruvbox,
    GruvboxLight,
    Nord,
    NordLight,
    Custom,
}

/// The three matching-mode booleans of one widget's search box.
#[derive(Clone, Copy, Debug, PartialEq, Eq, Structural)]
pub struct ProcessSearchState {
    pub is_ignoring_case: bool,
    pub is_searching_whole_word: bool,
    pub is_searching_with_regex: bool,
}

impl Default for ProcessSearchState {
    /// A fresh search box ignores case and matches neither whole words
    /// nor by pattern.
    fn default() -> (r: Self)
        ensures
            r.is_ignoring_case,
            !r.is_searching_whole_word,
            !r.is_searching_with_regex,
    {
        ProcessSearchState {
            is_ignoring_case: true,
            is_searching_whole_word: false,
            is_searching_with_regex: false,
        }
    }
}

/// The state of one process-list widget that resolution touches.
#[derive(Clone, Copy, Debug, PartialEq, Eq, Structural)]
pub struct ProcWidgetState {
    pub process_search_state: ProcessSearchState,
}

impl Default for ProcWidgetState {
    fn default() -> (r: Self)
        ensures
            r.process_search_state.is_ignoring_case,
            !r.process_search_state.is_searching_whole_word,
            !r.process_search_state.is_searching_with_regex,
    {
        ProcWidgetState { process_search_state: Default::default() }
    }
}

/// The summary record that basic mode carries: which table widget is
/// currently shown, the fixed identifier of the basic-mode container, and
/// four screen-region anchors left empty for the layout engine to fill.
#[derive(Clone, Copy, Debug)]
pub struct BasicTableWidgetState {
    pub currently_displayed_widget_type: BottomWidgetType,
    pub currently_displayed_widget_id: u64,
    pub widget_id: u64,
    pub left_tlc: Option<(u16, u16)>,
    pub left_brc: Option<(u16, u16)>,
    pub right_tlc: Option<(u16, u16)>,
    pub right_brc: Option<(u16, u16)>,
}

/// The widget kind a literal names, or nothing for an unknown literal.
/// Aliases are fixed and case-sensitive.
pub open spec fn spec_parse_widget_type(s: Seq<char>) -> Option<BottomWidgetType> {
    if s == "cpu"@ {
        Some(BottomWidgetType::Cpu)
    } else if s == "mem"@ || s == "memory"@ {
        Some(BottomWidgetType::Mem)
    } else if s == "net"@ || s == "network"@ {
        Some(BottomWidgetType::Net)
    } else if s == "proc"@ || s == "process"@ || s == "processes"@ {
        Some(BottomWidgetType::Proc)
    } else if s == "temp"@ || s == "temperature"@ {
        Some(BottomWidgetType::Temp)
    } else if s == "disk"@ {
        Some(BottomWidgetType::Disk)
    } else if s == "empty"@ {
        Some(BottomWidgetType::Empty)
    } else if s == "battery"@ || s == "batt"@ {
        Some(BottomWidgetType::Battery)
    } else {
        None
    }
}

/// Reads a widget-type literal.
pub fn parse_widget_type(s: &str) -> (r: Option<BottomWidgetType>)
    ensures
        r == spec_parse_widget_type(s@),
{
    if str_eq(s, "cpu") {
        Some(BottomWidgetType::Cpu)
    } else if str_eq(s, "mem") || str_eq(s, "memory") {
        Some(BottomWidgetType::Mem)
    } else if str_eq(s, "net") || str_eq(s, "network") {
        Some(BottomWidgetType::Net)
    } else if str_eq(s, "proc") || str_eq(s, "process") || str_eq(s, "processes") {
        Some(BottomWidgetType::Proc)
    } else if str_eq(s, "temp") || str_eq(s, "temperature") {
        Some(BottomWidgetType::Temp)
    } else if str_eq(s, "disk") {
        Some(BottomWidgetType::Disk)
    } else if str_eq(s, "empty") {
        Some(BottomWidgetType::Empty)
    } else if str_eq(s, "battery") || str_eq(s, "batt") {
        Some(BottomWidgetType::Battery)
    } else {
        None
    }
}

/// The built-in scheme a literal names, or nothing for an unknown
/// literal. The "Custom" scheme has no literal: it is selected only by
/// the presence of custom colors in the document.
pub open spec fn spec_parse_color_scheme(s: Seq<char>) -> Option<ColorScheme> {
    if s == "default"@ {
        Some(ColorScheme::Default)
    } else if s == "default-light"@ {
        Some(ColorScheme::DefaultLight)
    } else if s == "gruvbox"@ {
        Some(ColorScheme::Gruvbox)
    } else if s == "gruvbox-light"@ {
        Some(ColorScheme::GruvboxLight)
    } else if s == "nord"@ {
        Some(ColorScheme::Nord)
    } else if s == "nord-light"@ {
        Some(ColorScheme::NordLight)
    } else {
        None
    }
}

/// Reads a color-scheme literal.
pub fn parse_color_scheme(s: &str) -> (r: Option<ColorScheme>)
    ensures
        r == spec_parse_color_scheme(s@),
{
    if str_eq(s, "default") {
        Some(ColorScheme::Default)
    } else if str_eq(s, "default-light") {
        Some(ColorScheme::DefaultLight)
    } else if str_eq(s, "gruvbox") {
        Some(ColorScheme::Gruvbox)
    } else if str_eq(s, "gruvbox-light") {
        Some(ColorScheme::GruvboxLight)
    } else if str_eq(s, "nord") {
        Some(ColorScheme::Nord)
    } else if str_eq(s, "nord-light") {
        Some(ColorScheme::NordLight)
    } else {
        None
    }
}

} // verus!
