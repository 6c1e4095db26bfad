//! The scheduling logic: which animation each phase of the engine's
//! loop plays, with which color, and how long the pauses between
//! blinks are.
//!
//! Each phase function decides and hands back a plan; the embedding
//! program performs the waiting, the file reading and the rendering,
//! and loops startup, base, blink cycle and next animation in order.

use vstd::arithmetic::div_mod::lemma_div_is_ordered;
use vstd::arithmetic::div_mod::lemma_fundamental_div_mod;
use vstd::arithmetic::div_mod::lemma_fundamental_div_mod_converse;
use vstd::arithmetic::div_mod::lemma_div_multiples_vanish;
use vstd::prelude::*;
use vstd::string::*;

use crate::arguments::Arguments;
use crate::arguments::spec_arguments_wf;
use crate::color::Color;
use crate::color::get_base_or_blink_color;
use crate::color::get_random_color_from_palette;
use crate::color::spec_default_palette;
use crate::color::spec_is_base_or_blink_color;
use crate::file_operations::BASE_PATH;
use crate::file_operations::Playlist;
use crate::file_operations::STARTUP_PATH;
use crate::queue::InjectionQueue;
use crate::random::random_in_range_u8;
use crate::random::random_in_range_u16;
use crate::random::shuffle;

verus! {

/// One animation to play: its path and the color to apply, `None`
/// meaning the animation's own colors.
#[derive(Debug)]
pub struct PlayOrder {
    /// The path of the animation file.
    pub path: String,
    /// The color override to pass to the renderer.
    pub color: Option<Color>,
}

/// One step of a blink cycle, to be performed in order.
#[derive(Debug)]
pub enum BlinkStep {
    /// Wait this many milliseconds.
    Sleep { ms: u64 },
    /// Play one blink animation.
    Play(PlayOrder),
}

/// A fatal scheduling failure.
#[derive(PartialEq, Eq, Structural, Debug)]
pub enum ScheduleError {
    /// The directory with the other animations holds no file, so the
    /// engine has nothing to show and must halt rather than spin.
    EmptyDirectory,
}

/// A delay scaled by the playback speed factor: dividing by a factor
/// in thousandths multiplies by its reciprocal.
pub open spec fn spec_scaled_delay(delay: u16, speed_milli: u32) -> u64
    recommends
        speed_milli > 0,
{
    ((delay as int) * 1000 / (speed_milli as int)) as u64
}

/// Scale a delay by the playback speed factor.
fn scaled_delay(delay: u16, speed_milli: u32) -> (d: u64)
    requires
        speed_milli > 0,
    ensures
        d == spec_scaled_delay(delay, speed_milli),
{
    (delay as u64) * 1000 / (speed_milli as u64)
}

/// Get how long the sleep before or after a blink should be: a delay
/// drawn from the configured range, scaled by the playback speed.
pub fn get_blink_delay(min_delay: u16, max_delay: u16, speed_milli: u32) -> (d: u64)
    requires
        min_delay <= max_delay,
        speed_milli > 0,
    ensures
        exists|p: u16|
            min_delay <= p <= max_delay && d == spec_scaled_delay(p, speed_milli),
        min_delay == max_delay ==> d == spec_scaled_delay(min_delay, speed_milli),
{
    if min_delay == max_delay {
        let d = scaled_delay(min_delay, speed_milli);
        proof {
            assert(min_delay <= min_delay <= max_delay && d == spec_scaled_delay(
                min_delay,
                speed_milli,
            ));
        }
        return d;
    }
    let delay = random_in_range_u16(min_delay, max_delay);
    let d = scaled_delay(delay, speed_milli);
    proof {
        assert(min_delay <= delay <= max_delay && d == spec_scaled_delay(delay, speed_milli));
    }
    d
}

/// A delay scaled from anywhere within the configured range lies
/// between the scaled bounds.
pub proof fn lemma_blink_delay_in_range(p: u16, min_delay: u16, max_delay: u16, speed_milli: u32)
    requires
        min_delay <= p <= max_delay,
        speed_milli > 0,
    ensures
        spec_scaled_delay(min_delay, speed_milli) <= spec_scaled_delay(p, speed_milli),
        spec_scaled_delay(p, speed_milli) <= spec_scaled_delay(max_delay, speed_milli),
{
    lemma_div_is_ordered((min_delay as int) * 1000, (p as int) * 1000, speed_milli as int);
    lemma_div_is_ordered((p as int) * 1000, (max_delay as int) * 1000, speed_milli as int);
}

/// At normal speed a delay is kept as it is.
pub proof fn lemma_normal_speed_keeps_delay(d: u16)
    ensures
        spec_scaled_delay(d, 1000) == d,
{
    lemma_div_multiples_vanish(d as int, 1000);
}

/// Doubling the playback speed halves a delay.
pub proof fn lemma_double_speed_halves_delay(d: u16)
    ensures
        spec_scaled_delay(d, 2000) == d / 2,
{
    let q = (d as int) / 2;
    let r = (d as int) % 2;
    lemma_fundamental_div_mod(d as int, 2);
    assert((d as int) * 1000 == q * 2000 + 1000 * r);
    lemma_fundamental_div_mod_converse((d as int) * 1000, 2000, q, 1000 * r);
}

/// The count of how many times the display should blink in one
/// blinking cycle: at least one, up to the configured maximum, and
/// zero exactly when blinking is disabled.
pub fn get_blink_amount(max_blinks: u8) -> (n: u8)
    ensures
        n <= max_blinks,
        (n == 0) == (max_blinks == 0),
{
    if max_blinks == 0 {
        return 0;
    }
    random_in_range_u8(1, max_blinks)
}

/// The startup phase: the startup animation, played once, uncolored.
pub fn startup() -> (o: PlayOrder)
    ensures
        o.path@ == STARTUP_PATH@,
        o.color is None,
{
    PlayOrder { path: String::from_str(STARTUP_PATH), color: None }
}

/// The base-idle phase: the base animation with the resolved color, or
/// nothing when no blinking is configured — there is no point idling
/// if no blink will ever occur.
pub fn show_base(args: &Arguments, use_rand_color: bool, palette: &Vec<Color>) -> (r: Option<
    PlayOrder,
>)
    ensures
        args.max_blinks == 0 || args.min_delay == 0 ==> r is None,
        args.max_blinks != 0 && args.min_delay != 0 ==> match r {
            Some(o) => {
                &&& o.path@ == BASE_PATH@
                &&& spec_is_base_or_blink_color(
                    o.color,
                    use_rand_color,
                    args.default_color.deep_view(),
                    palette@,
                )
            },
            None => false,
        },
{
    if args.max_blinks != 0 && args.min_delay != 0 {
        let color = get_base_or_blink_color(use_rand_color, &args.default_color, palette);
        Some(PlayOrder { path: String::from_str(BASE_PATH), color })
    } else {
        None
    }
}

/// A sleep step whose delay was drawn from the configured range and
/// scaled by the playback speed.
pub open spec fn spec_is_blink_sleep(s: BlinkStep, a: Arguments) -> bool {
    s matches BlinkStep::Sleep { ms } && exists|p: u16|
        a.min_delay <= p <= a.max_delay && ms == spec_scaled_delay(p, a.playback_speed_milli)
}

/// A play step of one of the listed blink animations, with a color the
/// base-or-blink resolution may yield.
pub open spec fn spec_is_blink_play(
    s: BlinkStep,
    use_rand_color: bool,
    oc: Option<Seq<char>>,
    palette: Seq<Color>,
    fs: Seq<String>,
) -> bool {
    s matches BlinkStep::Play(o) && fs.contains(o.path) && spec_is_base_or_blink_color(
        o.color,
        use_rand_color,
        oc,
        palette,
    )
}

/// The shape of a planned blink cycle with a given blink count: with a
/// usable file listing, an initial sleep and then one play and one
/// sleep per blink; without one, only the sleeps.
pub open spec fn spec_blink_cycle_plan(
    steps: Seq<BlinkStep>,
    a: Arguments,
    use_rand_color: bool,
    oc: Option<Seq<char>>,
    palette: Seq<Color>,
    files: Option<Seq<String>>,
    amount: u8,
) -> bool {
    &&& amount <= a.max_blinks
    &&& (amount == 0) == (a.max_blinks == 0)
    &&& if files matches Some(fs) && fs.len() > 0 {
        &&& steps.len() == 1 + 2 * amount
        &&& forall|i: int|
            0 <= i < steps.len() && i % 2 == 0 ==> spec_is_blink_sleep(#[trigger] steps[i], a)
        &&& forall|i: int|
            0 <= i < steps.len() && i % 2 == 1 ==> spec_is_blink_play(
                #[trigger] steps[i],
                use_rand_color,
                oc,
                palette,
                files.unwrap(),
            )
    } else {
        &&& steps.len() == 1 + amount
        &&& forall|i: int| 0 <= i < steps.len() ==> spec_is_blink_sleep(#[trigger] steps[i], a)
    }
}

/// The listed files as a sequence, where a listing exists.
pub open spec fn spec_files_view(files: Option<&Vec<String>>) -> Option<Seq<String>> {
    match files {
        Some(fs) => Some(fs@),
        None => None,
    }
}

/// Plan one blink cycle: an initial randomized sleep, then, for a
/// random count of blinks up to the configured maximum, one randomly
/// chosen blink animation followed by the next randomized sleep. When
/// the blink directory could not be listed, or lists no file, the
/// blinks are skipped and only the sleeps remain.
pub fn do_blink_cycle(
    args: &Arguments,
    use_rand_color: bool,
    palette: &Vec<Color>,
    files: Option<&Vec<String>>,
) -> (steps: Vec<BlinkStep>)
    requires
        spec_arguments_wf(*args),
    ensures
        exists|amount: u8|
            #[trigger] spec_blink_cycle_plan(
                steps@,
                *args,
                use_rand_color,
                args.default_color.deep_view(),
                palette@,
                spec_files_view(files),
                amount,
            ),
{
    let amount = get_blink_amount(args.max_blinks);
    let mut steps: Vec<BlinkStep> = Vec::new();
    let d0 = get_blink_delay(args.min_delay, args.max_delay, args.playback_speed_milli);
    steps.push(BlinkStep::Sleep { ms: d0 });
    let with_files: bool = match files {
        Some(fs) => fs.len() > 0,
        None => false,
    };
    let mut k: u8 = 0;
    while k < amount
        invariant
            0 <= k <= amount,
            spec_arguments_wf(*args),
            with_files == (files matches Some(fs) && fs@.len() > 0),
            if with_files {
                steps@.len() == 1 + 2 * k
            } else {
                steps@.len() == 1 + k
            },
            forall|i: int|
                0 <= i < steps@.len() && (!with_files || i % 2 == 0) ==> spec_is_blink_sleep(
                    #[trigger] steps@[i],
                    *args,
                ),
            with_files ==> forall|i: int|
                0 <= i < steps@.len() && i % 2 == 1 ==> spec_is_blink_play(
                    #[trigger] steps@[i],
                    use_rand_color,
                    args.default_color.deep_view(),
                    palette@,
                    files.unwrap()@,
                ),
        decreases amount - k,
    {
        match files {
            Some(fs) => {
                if fs.len() > 0 {
                    // pick one blink animation at random
                    let j = crate::random::random_below(fs.len());
                    let color = get_base_or_blink_color(
                        use_rand_color,
                        &args.default_color,
                        palette,
                    );
                    let order = PlayOrder { path: fs[j].clone(), color };
                    steps.push(BlinkStep::Play(order));
                }
            },
            None => {
                // the directory could not be listed; skip this blink
            },
        }
        let d = get_blink_delay(args.min_delay, args.max_delay, args.playback_speed_milli);
        steps.push(BlinkStep::Sleep { ms: d });
        k = k + 1;
    }
    proof {
        assert(spec_blink_cycle_plan(
            steps@,
            *args,
            use_rand_color,
            args.default_color.deep_view(),
            palette@,
            spec_files_view(files),
            amount,
        ));
    }
    steps
}

/// A color the next-animation phase may apply: a random palette color
/// when the override flag asks for one, else the animation's own
/// colors.
pub open spec fn spec_is_next_animation_color(
    c: Option<Color>,
    use_rand_color: bool,
    palette: Seq<Color>,
) -> bool {
    if use_rand_color {
        match c {
            Some(cc) => {
                &&& palette.len() > 0 ==> palette.contains(cc)
                &&& palette.len() == 0 ==> spec_default_palette().contains(cc)
            },
            None => false,
        }
    } else {
        c is None
    }
}

/// The next-animation phase: pop the most recently injected path; when
/// none is pending, refill the queue with the listed other animations
/// in a shuffled order and take one of them. A missing listing skips
/// the phase; an empty directory is a fatal configuration error.
pub fn show_next_animation(
    queue: &mut InjectionQueue,
    listing: Option<Vec<String>>,
    use_rand_color: bool,
    palette: &Vec<Color>,
) -> (r: Result<Option<PlayOrder>, ScheduleError>)
    ensures
        match r {
            Ok(Some(o)) => {
                &&& spec_is_next_animation_color(o.color, use_rand_color, palette@)
                &&& if old(queue)@.len() > 0 {
                    &&& o.path == old(queue)@.last()
                    &&& final(queue)@ == old(queue)@.drop_last()
                } else {
                    &&& listing matches Some(fs) && fs@.len() > 0
                    &&& exists|perm: Seq<String>|
                        {
                            &&& (#[trigger] perm.to_multiset()) == listing.unwrap()@.to_multiset()
                            &&& perm.len() > 0
                            &&& o.path == perm.last()
                            &&& final(queue)@ == perm.drop_last()
                        }
                }
            },
            Ok(None) => {
                &&& old(queue)@.len() == 0
                &&& listing is None
                &&& final(queue)@ == old(queue)@
            },
            Err(e) => {
                &&& e == ScheduleError::EmptyDirectory
                &&& old(queue)@.len() == 0
                &&& listing matches Some(fs) && fs@.len() == 0
            },
        },
{
    match queue.lock_and_pop_last() {
        Some(path) => {
            let color = if use_rand_color {
                Some(get_random_color_from_palette(palette))
            } else {
                None
            };
            Ok(Some(PlayOrder { path, color }))
        },
        None => {
            // the queue is empty; rebuild it from the other animations
            match listing {
                None => Ok(None),
                Some(files) => {
                    if files.len() == 0 {
                        return Err(ScheduleError::EmptyDirectory);
                    }
                    let shuffled = shuffle(files);
                    let ghost perm = shuffled@;
                    queue.clear();
                    queue.extend(shuffled);
                    proof {
                        assert(queue@ =~= perm);
                    }
                    match queue.lock_and_pop_last() {
                        Some(path) => {
                            let color = if use_rand_color {
                                Some(get_random_color_from_palette(palette))
                            } else {
                                None
                            };
                            Ok(Some(PlayOrder { path, color }))
                        },
                        None => {
                            // the refilled queue cannot be empty
                            proof {
                                assert(false);
                            }
                            Err(ScheduleError::EmptyDirectory)
                        },
                    }
                },
            }
        },
    }
}

/// Plan the given playlist: each entry once, in the listed order, with
/// the color resolved per entry by the base-or-blink rule.
pub fn play_playlist(
    playlist: &Playlist,
    use_rand_color: bool,
    default_color: &Option<String>,
    palette: &Vec<Color>,
) -> (orders: Vec<PlayOrder>)
    ensures
        orders@.len() == playlist.entries@.len(),
        forall|i: int|
            0 <= i < orders@.len() ==> (#[trigger] orders@[i]).path == playlist.entries@[i]
                && spec_is_base_or_blink_color(
                orders@[i].color,
                use_rand_color,
                default_color.deep_view(),
                palette@,
            ),
{
    let mut orders: Vec<PlayOrder> = Vec::new();
    let mut i: usize = 0;
    while i < playlist.entries.len()
        invariant
            0 <= i <= playlist.entries.len(),
            orders@.len() == i,
            forall|j: int|
                0 <= j < i ==> (#[trigger] orders@[j]).path == playlist.entries@[j]
                    && spec_is_base_or_blink_color(
                    orders@[j].color,
                    use_rand_color,
                    default_color.deep_view(),
                    palette@,
                ),
        decreases playlist.entries.len() - i,
    {
        let color = get_base_or_blink_color(use_rand_color, default_color, palette);
        orders.push(PlayOrder { path: playlist.entries[i].clone(), color });
        i = i + 1;
    }
    orders
}

/// How a run of the engine starts.
#[derive(Debug)]
pub enum StartPlan {
    /// Play these orders, then continue with the normal flow or stop,
    /// per configuration.
    Playlist {
        /// The playlist entries, in order, with their colors resolved.
        orders: Vec<PlayOrder>,
        /// Whether the normal flow follows the playlist.
        continue_after: bool,
    },
    /// No playlist is configured: run the normal flow.
    Normal,
}

/// Start running the eyes: with a playlist configured and read, its
/// entries are played in order, colored by the override flag; without
/// one the engine enters its normal loop.
pub fn start_eyes(args: &Arguments, playlist: Option<&Playlist>, palette: &Vec<Color>) -> (plan:
    StartPlan)
    ensures
        (playlist is Some) == (plan matches StartPlan::Playlist { .. }),
        match plan {
            StartPlan::Normal => playlist is None,
            StartPlan::Playlist { orders, continue_after } => {
                &&& playlist matches Some(pl)
                &&& orders@.len() == pl.entries@.len()
                &&& forall|i: int|
                    0 <= i < orders@.len() ==> (#[trigger] orders@[i]).path
                        == pl.entries@[i] && spec_is_base_or_blink_color(
                        orders@[i].color,
                        args.color_overwrite,
                        args.default_color.deep_view(),
                        palette@,
                    )
                &&& continue_after == args.continue_after_playlist
            },
        },
{
    match playlist {
        None => StartPlan::Normal,
        Some(pl) => {
            let orders = play_playlist(pl, args.color_overwrite, &args.default_color, palette);
            StartPlan::Playlist { orders, continue_after: args.continue_after_playlist }
        },
    }
}

} // verus!
