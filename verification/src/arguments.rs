//! The configuration surface the engine consumes, and its validation.
//!
//! The playback speed factor is carried in thousandths, so that a
//! speed of 1.0 is the value 1000; the embedding program converts the
//! operator's factor once at startup.

use vstd::prelude::*;

use crate::color::parse_hex_u32;
use crate::color::spec_parse_hex_u32;

verus! {

/// The configuration the engine runs with, constructed once at startup
/// and never changed afterwards.
#[derive(PartialEq, Debug)]
pub struct Arguments {
    /// Skip the startup animation.
    pub skip_startup_animation: bool,
    /// Playback speed factor in thousandths; 1000 is normal speed.
    /// Needs to be bigger than 0.
    pub playback_speed_milli: u32,
    /// Maximum count of blinks between animations.
    pub max_blinks: u8,
    /// Minimum milliseconds between blinks.
    pub min_delay: u16,
    /// Maximum milliseconds between blinks.
    pub max_delay: u16,
    /// Use a random color from the palette for grayscale animations.
    pub color_overwrite: bool,
    /// Use a random color from the palette for the blinks and base as
    /// well.
    pub color_overwrite_all: bool,
    /// Color in hex format that should be used for uncolored
    /// animations, e.g. `FF0080` for magenta.
    pub default_color: Option<String>,
    /// The path to a color palette file.
    pub palette: Option<String>,
    /// The path to a playlist file.
    pub playlist: Option<String>,
    /// Continue with the normal program flow after the playlist.
    pub continue_after_playlist: bool,
    /// The TCP port that is to be used for receiving animations.
    pub inject_port: u16,
}

/// A checked configuration: a positive speed factor and an ordered
/// blink-delay range.
pub open spec fn spec_arguments_wf(a: Arguments) -> bool {
    &&& a.playback_speed_milli > 0
    &&& a.min_delay <= a.max_delay
}

/// How checking repairs a raw configuration: a speed of zero becomes
/// normal speed, a reversed delay range is swapped, an unparseable
/// override color is dropped, and everything else is kept.
pub open spec fn spec_checked_arguments(raw: Arguments, r: Arguments) -> bool {
    &&& r.playback_speed_milli == if raw.playback_speed_milli == 0 {
        1000u32
    } else {
        raw.playback_speed_milli
    }
    &&& raw.max_delay < raw.min_delay ==> r.min_delay == raw.max_delay && r.max_delay
        == raw.min_delay
    &&& raw.min_delay <= raw.max_delay ==> r.min_delay == raw.min_delay && r.max_delay
        == raw.max_delay
    &&& r.default_color == (match raw.default_color {
        None => None::<String>,
        Some(s) => if spec_parse_hex_u32(s@) is Some {
            Some(s)
        } else {
            None
        },
    })
    &&& r.skip_startup_animation == raw.skip_startup_animation
    &&& r.max_blinks == raw.max_blinks
    &&& r.color_overwrite == raw.color_overwrite
    &&& r.color_overwrite_all == raw.color_overwrite_all
    &&& r.palette == raw.palette
    &&& r.playlist == raw.playlist
    &&& r.continue_after_playlist == raw.continue_after_playlist
    &&& r.inject_port == raw.inject_port
}

/// Repair a raw configuration so the engine can rely on it.
pub fn check_arguments(raw_args: Arguments) -> (r: Arguments)
    ensures
        spec_checked_arguments(raw_args, r),
        spec_arguments_wf(r),
{
    let playback_speed_milli: u32 = if raw_args.playback_speed_milli == 0 {
        // a speed factor of zero or below makes no sense; use normal speed
        1000
    } else {
        raw_args.playback_speed_milli
    };
    let (min_delay, max_delay): (u16, u16) = if raw_args.max_delay < raw_args.min_delay {
        // the maximum delay cannot be smaller than the minimum; swap them
        (raw_args.max_delay, raw_args.min_delay)
    } else {
        (raw_args.min_delay, raw_args.max_delay)
    };
    // attempt to convert the override color; if possible, everything is good
    let color_ok: bool = match &raw_args.default_color {
        None => true,
        Some(s) => parse_hex_u32(s.as_str()).is_some(),
    };
    let default_color: Option<String> = if color_ok {
        raw_args.default_color
    } else {
        None
    };
    Arguments {
        skip_startup_animation: raw_args.skip_startup_animation,
        playback_speed_milli,
        max_blinks: raw_args.max_blinks,
        min_delay,
        max_delay,
        color_overwrite: raw_args.color_overwrite,
        color_overwrite_all: raw_args.color_overwrite_all,
        default_color,
        palette: raw_args.palette,
        playlist: raw_args.playlist,
        continue_after_playlist: raw_args.continue_after_playlist,
        inject_port: raw_args.inject_port,
    }
}

/// Check freshly parsed arguments and hand back the configuration the
/// engine runs with.
pub fn init_arguments(raw_args: Arguments) -> (a: Arguments)
    ensures
        spec_checked_arguments(raw_args, a),
        spec_arguments_wf(a),
{
    check_arguments(raw_args)
}

/// The configuration used when none was given.
pub fn fallback_arguments() -> (a: Arguments)
    ensures
        a.skip_startup_animation == true,
        a.playback_speed_milli == 1000,
        a.max_blinks == 4,
        a.min_delay == 4000,
        a.max_delay == 6000,
        a.color_overwrite == false,
        a.color_overwrite_all == false,
        a.default_color is None,
        a.palette is None,
        a.playlist is None,
        a.continue_after_playlist == false,
        a.inject_port == 8082,
        spec_arguments_wf(a),
{
    Arguments {
        skip_startup_animation: true,
        playback_speed_milli: 1000,
        max_blinks: 4,
        min_delay: 4000,
        max_delay: 6000,
        color_overwrite: false,
        color_overwrite_all: false,
        default_color: None,
        palette: None,
        playlist: None,
        continue_after_playlist: false,
        inject_port: 8082,
    }
}

} // verus!
