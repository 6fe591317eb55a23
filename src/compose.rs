use vstd::prelude::*;

verus! {

/// How much of each screenshot's header the composition engine trims.
#[derive(Clone, Copy, Debug, PartialEq, Eq, Structural)]
pub enum HeaderTrimMode {
    /// Trim the margin and the title bar: the strongest mode.
    TrimTitleBar,
    /// Trim the margin only.
    TrimMarginOnly,
}

/// The configuration handed to the composition engine.
#[derive(Clone, Copy, Debug, PartialEq, Eq, Structural)]
pub struct ImageConfig {
    pub do_merge_close_button: bool,
    pub header_trim_mode: Option<HeaderTrimMode>,
    pub scaling_threshold_pixels: Option<u32>,
}

/// The output area, in pixels, above which the engine scales the result down.
pub const SCALING_THRESHOLD_PIXELS: u32 = 540000;

/// The three merge options of a request.
#[derive(Clone, Copy, Debug, PartialEq, Eq, Structural)]
pub struct MergeOptions {
    pub trim_margin: bool,
    pub trim_close_button: bool,
    pub trim_title: bool,
}

/// An integer form field read as a flag: present and non-zero.
pub open spec fn flag_of(field: Option<i32>) -> bool {
    field matches Some(v) && v != 0
}

/// The header trim mode that the options ask for.
pub open spec fn trim_mode_of(trim_margin: bool, trim_title: bool) -> Option<HeaderTrimMode> {
    if !trim_margin {
        None
    } else if trim_title {
        Some(HeaderTrimMode::TrimTitleBar)
    } else {
        Some(HeaderTrimMode::TrimMarginOnly)
    }
}

/// The engine configuration for a set of options.
pub open spec fn config_of(o: MergeOptions) -> ImageConfig {
    ImageConfig {
        do_merge_close_button: !o.trim_close_button,
        header_trim_mode: trim_mode_of(o.trim_margin, o.trim_title),
        scaling_threshold_pixels: Some(SCALING_THRESHOLD_PIXELS),
    }
}

/// Reads an optional integer form field as a flag; an absent field is false.
pub fn parse_flag(field: Option<i32>) -> (r: bool)
    ensures
        r == flag_of(field),
{
    match field {
        Some(v) => v != 0,
        None => false,
    }
}

impl MergeOptions {
    /// The options of a request from its three optional integer fields.
    pub fn from_fields(
        trim_margin: Option<i32>,
        trim_close_button: Option<i32>,
        trim_title: Option<i32>,
    ) -> (r: MergeOptions)
        ensures
            r.trim_margin == flag_of(trim_margin),
            r.trim_close_button == flag_of(trim_close_button),
            r.trim_title == flag_of(trim_title),
    {
        MergeOptions {
            trim_margin: parse_flag(trim_margin),
            trim_close_button: parse_flag(trim_close_button),
            trim_title: parse_flag(trim_title),
        }
    }
}

/// Turns the options into the engine configuration: the title flag only
/// matters when the margin is trimmed, a trimmed close button is not merged,
/// and the scaling threshold is always set.
pub fn engine_config(options: MergeOptions) -> (r: ImageConfig)
    ensures
        r == config_of(options),
{
    let header_trim_mode = if options.trim_margin {
        if options.trim_title {
            Some(HeaderTrimMode::TrimTitleBar)
        } else {
            Some(HeaderTrimMode::TrimMarginOnly)
        }
    } else {
        None
    };
    ImageConfig {
        do_merge_close_button: !options.trim_close_button,
        header_trim_mode,
        scaling_threshold_pixels: Some(SCALING_THRESHOLD_PIXELS),
    }
}

/// Without margin trimming no header trim mode is requested, whatever the
/// title flag says.
pub proof fn lemma_title_ignored_without_margin(trim_close_button: bool, trim_title: bool)
    ensures
        config_of(MergeOptions { trim_margin: false, trim_close_button, trim_title }).header_trim_mode
            is None,
        config_of(MergeOptions { trim_margin: false, trim_close_button, trim_title: true })
            == config_of(MergeOptions { trim_margin: false, trim_close_button, trim_title: false }),
{
}

} // verus!
