//! The universal interface for all renderers.
//!
//! A renderer turns an animation into the sequence of steps the sink
//! must perform: drive one frame's backend-native output, then wait
//! the frame's delay. The embedding program owns the sink and performs
//! the steps; which pixels show which color is decided, and verified,
//! here.

/// Renderer that animates in the current console.
pub mod console;

/// Renderer that animates on a generic LED matrix.
pub mod led_matrix;

/// Renderer that animates no animation at all (for debugging or
/// testing).
pub mod silent;

/// Renderer that animates on the target device's fixed LED matrix,
/// with its non-rectangular physical wiring.
pub mod tasbot_eyes;

use vstd::prelude::*;

use crate::color::Color;
use crate::gif::Animation;
use crate::gif::Pixel;
use crate::gif::pixel_is_black;
use crate::gif::spec_all_frames_ok;
use crate::gif::spec_decoded_frames;
use crate::gif::spec_pixel_black;
use crate::gif::spec_read_animation_ok;
use crate::gif::read_animation;

verus! {

/// An optional color, dereferenced.
pub open spec fn spec_opt_color(c: Option<&Color>) -> Option<Color> {
    match c {
        Some(c) => Some(*c),
        None => None,
    }
}

/// An optional gamma lookup table, viewed.
pub open spec fn spec_opt_gamma(g: Option<&Vec<u8>>) -> Option<Seq<u8>> {
    match g {
        Some(t) => Some(t@),
        None => None,
    }
}

/// A channel value passed through a gamma lookup table; a value the
/// table does not cover is kept as it is.
pub open spec fn spec_gamma(t: Seq<u8>, v: u8) -> u8 {
    if v < t.len() {
        t[v as int]
    } else {
        v
    }
}

/// The channel quadruple an LED shows for a pixel: the pixel's own
/// color, or the override color with black kept black, in the
/// hardware's (blue, green, red, unused) channel order, the three
/// color channels passed through the gamma table when one is set.
pub open spec fn spec_led_color(p: Pixel, color: Option<Color>, gamma: Option<Seq<u8>>) -> Seq<
    u8,
> {
    let base: Seq<u8> = match color {
        None => seq![p.b, p.g, p.r, 0u8],
        Some(c) => if spec_pixel_black(p) {
            seq![0u8, 0u8, 0u8, 0u8]
        } else {
            seq![c.b, c.g, c.r, 0u8]
        },
    };
    match gamma {
        None => base,
        Some(t) => seq![spec_gamma(t, base[0]), spec_gamma(t, base[1]), spec_gamma(t, base[2]), 0u8],
    }
}

/// Look one channel value up in a gamma table.
fn gamma_lookup(t: &Vec<u8>, v: u8) -> (r: u8)
    ensures
        r == spec_gamma(t@, v),
{
    if (v as usize) < t.len() {
        t[v as usize]
    } else {
        v
    }
}

/// Compute the channel quadruple an LED shows for a pixel.
pub fn led_color(p: &Pixel, color: Option<&Color>, gamma: Option<&Vec<u8>>) -> (r: [u8; 4])
    ensures
        r@ == spec_led_color(*p, spec_opt_color(color), spec_opt_gamma(gamma)),
{
    let base: [u8; 4] = match color {
        None => [p.b, p.g, p.r, 0],
        Some(c) => {
            if pixel_is_black(p) {
                [0, 0, 0, 0]
            } else {
                [c.b, c.g, c.r, 0]
            }
        },
    };
    proof {
        assert(base@ =~= (match spec_opt_color(color) {
            None => seq![p.b, p.g, p.r, 0u8],
            Some(c) => if spec_pixel_black(*p) {
                seq![0u8, 0u8, 0u8, 0u8]
            } else {
                seq![c.b, c.g, c.r, 0u8]
            },
        }));
    }
    match gamma {
        None => base,
        Some(t) => {
            let r = [gamma_lookup(t, base[0]), gamma_lookup(t, base[1]), gamma_lookup(
                t,
                base[2],
            ), 0];
            proof {
                assert(r@ =~= spec_led_color(*p, spec_opt_color(color), spec_opt_gamma(gamma)));
            }
            r
        },
    }
}

/// One write to an LED strip buffer: the strip position and the
/// channel-ordered color quadruple to put there.
#[derive(PartialEq, Debug)]
pub struct LedWrite {
    /// The physical strip index.
    pub index: usize,
    /// The four channel bytes, in the wiring's order.
    pub color: [u8; 4],
}

/// The view of an LED write.
pub struct LedWriteV {
    /// The physical strip index.
    pub index: usize,
    /// The four channel bytes.
    pub color: Seq<u8>,
}

impl View for LedWrite {
    type V = LedWriteV;

    open spec fn view(&self) -> LedWriteV {
        LedWriteV { index: self.index, color: self.color@ }
    }
}

/// What one frame drives to the sink, in the backend's native form.
#[derive(PartialEq, Debug)]
pub enum FrameOutput {
    /// No output at all.
    Nothing,
    /// Rows of cells for a terminal: a blank cell for a black pixel, a
    /// colored block otherwise, optionally after clearing the screen.
    Console { clear_first: bool, cells: Vec<Vec<Option<Color>>> },
    /// The writes to an LED strip, in order; strip positions without a
    /// write keep their previous color.
    Led(Vec<LedWrite>),
}

/// The view of a frame output.
pub enum FrameOutputV {
    /// No output at all.
    Nothing,
    /// Rows of terminal cells.
    Console { clear_first: bool, cells: Seq<Seq<Option<Color>>> },
    /// The writes to an LED strip, in order.
    Led(Seq<LedWriteV>),
}

impl View for FrameOutput {
    type V = FrameOutputV;

    open spec fn view(&self) -> FrameOutputV {
        match self {
            FrameOutput::Nothing => FrameOutputV::Nothing,
            FrameOutput::Console { clear_first, cells } => FrameOutputV::Console {
                clear_first: *clear_first,
                cells: cells@.map_values(|row: Vec<Option<Color>>| row@),
            },
            FrameOutput::Led(writes) => FrameOutputV::Led(
                writes@.map_values(|w: LedWrite| w@),
            ),
        }
    }
}

/// One step of playing an animation: drive the output, then wait.
#[derive(PartialEq, Debug)]
pub struct RenderStep {
    /// What to drive to the sink.
    pub output: FrameOutput,
    /// How long to wait afterwards, in milliseconds.
    pub delay_ms: u64,
}

/// The view of a render step.
pub struct RenderStepV {
    /// What to drive to the sink.
    pub output: FrameOutputV,
    /// How long to wait afterwards, in milliseconds.
    pub delay_ms: u64,
}

impl View for RenderStep {
    type V = RenderStepV;

    open spec fn view(&self) -> RenderStepV {
        RenderStepV { output: self.output@, delay_ms: self.delay_ms }
    }
}

/// The views of a sequence of render steps.
pub open spec fn spec_steps_view(steps: Seq<RenderStep>) -> Seq<RenderStepV> {
    steps.map_values(|s: RenderStep| s@)
}

/// The universal interface for all renderers.
///
/// `play` renders every frame of an animation in order with its own
/// pixel colors; `play_colored` does the same but recolors grayscale
/// animations — a colorful animation is rendered unmodified, which is
/// the central color-override invariant.
pub trait Renderer: Sized {
    /// The steps this backend performs for an animation, with an
    /// optional override color already resolved.
    spec fn spec_play_steps(&self, anim: Animation, color: Option<Color>) -> Seq<RenderStepV>;

    /// What clearing the medium drives to the sink.
    spec fn spec_clear_output(&self) -> FrameOutputV;

    /// The configuration text this backend reports.
    spec fn spec_config(&self) -> Seq<char>;

    /// Play the animation as it is.
    fn play(&mut self, anim: Animation) -> (steps: Vec<RenderStep>)
        requires
            anim.wf(),
        ensures
            *final(self) == *old(self),
            spec_steps_view(steps@) == old(self).spec_play_steps(anim, None),
    ;

    /// Play the animation, but overwrite the color of the animation
    /// when, and only when, it is grayscale.
    fn play_colored(&mut self, anim: Animation, color: &Color) -> (steps: Vec<RenderStep>)
        requires
            anim.wf(),
        ensures
            *final(self) == *old(self),
            spec_steps_view(steps@) == old(self).spec_play_steps(
                anim,
                if anim.grayscale {
                    Some(*color)
                } else {
                    None
                },
            ),
    ;

    /// Clear the renderer medium: drive every addressable pixel off.
    fn clear(&mut self) -> (out: FrameOutput)
        ensures
            *final(self) == *old(self),
            out@ == old(self).spec_clear_output(),
    ;

    /// The configuration of the renderer, for observability.
    fn print_config(&self) -> (s: String)
        ensures
            s@ == self.spec_config(),
    ;
}

/// Color override is applied only to grayscale animations: whatever
/// the backend, a colorful animation handed to `play_colored` yields
/// exactly the steps that `play` yields, whatever the color argument.
pub proof fn lemma_colorful_never_recolored<T: Renderer>(r: T, anim: Animation, color: Color)
    requires
        !anim.grayscale,
    ensures
        r.spec_play_steps(
            anim,
            if anim.grayscale {
                Some(color)
            } else {
                None
            },
        ) == r.spec_play_steps(anim, None),
{
}

/// Play an animation from the bytes read at a given path, with a given
/// color option. A decode failure yields `None`: the caller logs it
/// and skips the play, the schedule advances regardless.
pub fn play_animation_from_path<T: Renderer>(
    renderer: &mut T,
    data: &Vec<u8>,
    color: Option<Color>,
) -> (r: Option<Vec<RenderStep>>)
    ensures
        *final(renderer) == *old(renderer),
        match r {
            Some(steps) => exists|anim: Animation|
                {
                    &&& #[trigger] spec_read_animation_ok(data@, anim)
                    &&& spec_steps_view(steps@) == old(renderer).spec_play_steps(
                        anim,
                        match color {
                            Some(c) => if anim.grayscale {
                                Some(c)
                            } else {
                                None
                            },
                            None => None,
                        },
                    )
                },
            None => match spec_decoded_frames(data@) {
                Some(fs) => !spec_all_frames_ok(fs),
                None => true,
            },
        },
{
    match read_animation(data) {
        Ok(anim) => {
            proof {
                assert(anim.wf()) by {
                    let fs = spec_decoded_frames(data@).unwrap();
                    assert(forall|i: int|
                        0 <= i < anim.frames@.len() ==> (#[trigger] anim.frames@[i]).wf()) by {
                        assert(forall|i: int|
                            0 <= i < anim.frames@.len() ==> crate::gif::spec_frame_matches(
                                #[trigger] anim.frames@[i],
                                fs[i],
                            ));
                    }
                }
            }
            let ghost anim_ghost = anim;
            let steps = match color {
                None => renderer.play(anim),
                Some(c) => renderer.play_colored(anim, &c),
            };
            proof {
                assert(spec_read_animation_ok(data@, anim_ghost));
            }
            Some(steps)
        },
        Err(_) => None,
    }
}

} // verus!
