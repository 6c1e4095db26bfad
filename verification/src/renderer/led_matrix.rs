//! The renderer for a generic rectangular LED matrix: pixel `(y, x)`
//! maps to strip index `y * WIDTH + x`.

use vstd::arithmetic::div_mod::lemma_fundamental_div_mod_converse;
use vstd::prelude::*;
use vstd::string::*;

use crate::color::Color;
use crate::gif::Animation;
use crate::gif::Frame;
use crate::led::LEDHardwareConfig;
use crate::led::StripKind;
use crate::renderer::FrameOutput;
use crate::renderer::FrameOutputV;
use crate::renderer::LedWrite;
use crate::renderer::LedWriteV;
use crate::renderer::RenderStep;
use crate::renderer::RenderStepV;
use crate::renderer::Renderer;
use crate::renderer::led_color;
use crate::renderer::spec_led_color;
use crate::renderer::spec_opt_color;
use crate::renderer::spec_opt_gamma;
use crate::renderer::spec_steps_view;
use crate::renderer::tasbot_eyes::SCREEN_HEIGHT;
use crate::renderer::tasbot_eyes::SCREEN_WIDTH;
use crate::text::spec_bool_str;
use crate::text::bool_to_str;

verus! {

/// The default brightness of the LEDs.
pub const BRIGHTNESS: u8 = 4;

/// The default frequency of the pulse wave signal.
pub const TARGET_FREQ: u32 = 800_000;

/// The default DMA channel.
pub const DMA: u8 = 10;

/// The default inversion flag.
pub const INVERTED: bool = false;

/// Failures of configuring an LED matrix.
#[derive(Debug)]
pub enum LEDMatrixError {
    /// Any error, with a description.
    Other(String),
}

/// The renderer for a generic rectangular LED matrix.
pub struct LEDMatrixRenderer {
    /// The lookup table to pass each color channel through, when gamma
    /// correction is on: one corrected value per channel value.
    pub gamma_table: Option<Vec<u8>>,
    /// The total LED count of the matrix; at least the fixed grid.
    pub count: usize,
}

/// The renderer's gamma table, viewed.
pub open spec fn spec_matrix_gamma(s: LEDMatrixRenderer) -> Option<Seq<u8>> {
    match s.gamma_table {
        Some(t) => Some(t@),
        None => None,
    }
}

/// The writes one frame drives: the fixed grid in row-major order,
/// pixel `(y, x)` at strip index `y * WIDTH + x`.
pub open spec fn spec_matrix_writes(f: Frame, color: Option<Color>, gamma: Option<Seq<u8>>) -> Seq<
    LedWriteV,
> {
    Seq::new(
        (SCREEN_WIDTH * SCREEN_HEIGHT) as nat,
        |k: int|
            LedWriteV {
                index: k as usize,
                color: spec_led_color(
                    f.grid()[k / (SCREEN_WIDTH as int)][k % (SCREEN_WIDTH as int)],
                    color,
                    gamma,
                ),
            },
    )
}

/// The one step a frame contributes: its writes, then its delay.
pub open spec fn spec_matrix_step(
    s: LEDMatrixRenderer,
    f: Frame,
    color: Option<Color>,
) -> RenderStepV {
    RenderStepV {
        output: FrameOutputV::Led(spec_matrix_writes(f, color, spec_matrix_gamma(s))),
        delay_ms: (f.delay * 10) as u64,
    }
}

/// Handle one frame that is to be rendered on the matrix.
pub fn show_frame(settings: &LEDMatrixRenderer, frame: &Frame, color: Option<&Color>) -> (step:
    RenderStep)
    requires
        frame.wf(),
    ensures
        step@ == spec_matrix_step(*settings, *frame, spec_opt_color(color)),
{
    let ghost c = spec_opt_color(color);
    let ghost g = spec_matrix_gamma(*settings);
    let ghost expected = spec_matrix_writes(*frame, c, g);
    let gamma: Option<&Vec<u8>> = match &settings.gamma_table {
        Some(t) => Some(t),
        None => None,
    };
    proof {
        assert(spec_opt_gamma(gamma) == g);
    }
    let mut writes: Vec<LedWrite> = Vec::new();
    let mut y: usize = 0;
    while y < SCREEN_HEIGHT
        invariant
            0 <= y <= SCREEN_HEIGHT,
            frame.wf(),
            c == spec_opt_color(color),
            g == spec_matrix_gamma(*settings),
            spec_opt_gamma(gamma) == g,
            expected == spec_matrix_writes(*frame, c, g),
            writes@.len() == 28 * y,
            forall|i: int| 0 <= i < writes@.len() ==> (#[trigger] writes@[i])@ == expected[i],
        decreases SCREEN_HEIGHT - y,
    {
        let frame_row = &frame.pixels[y];
        let mut x: usize = 0;
        while x < SCREEN_WIDTH
            invariant
                0 <= x <= SCREEN_WIDTH,
                0 <= y < SCREEN_HEIGHT,
                frame.wf(),
                c == spec_opt_color(color),
                g == spec_matrix_gamma(*settings),
                spec_opt_gamma(gamma) == g,
                expected == spec_matrix_writes(*frame, c, g),
                frame_row == &frame.pixels[y as int],
                writes@.len() == 28 * y + x,
                forall|i: int| 0 <= i < writes@.len() ==> (#[trigger] writes@[i])@ == expected[i],
            decreases SCREEN_WIDTH - x,
        {
            let ghost k: int = 28 * (y as int) + (x as int);
            proof {
                lemma_fundamental_div_mod_converse(k, 28, y as int, x as int);
                assert(frame.grid()[y as int][x as int] == frame_row@[x as int]);
                assert(expected[k] == LedWriteV {
                    index: k as usize,
                    color: spec_led_color(frame.grid()[y as int][x as int], c, g),
                });
            }
            let index = y * 28 + x;
            let quad = led_color(&frame_row[x], color, gamma);
            writes.push(LedWrite { index, color: quad });
            x = x + 1;
        }
        y = y + 1;
    }
    proof {
        assert(writes@.map_values(|w: LedWrite| w@) =~= expected);
    }
    RenderStep { output: FrameOutput::Led(writes), delay_ms: (frame.delay as u64) * 10 }
}

/// The steps the matrix renderer performs for an animation.
fn matrix_steps(settings: &LEDMatrixRenderer, anim: &Animation, color: Option<&Color>) -> (steps:
    Vec<RenderStep>)
    requires
        anim.wf(),
    ensures
        spec_steps_view(steps@) == anim.frames@.map_values(
            |f: Frame| spec_matrix_step(*settings, f, spec_opt_color(color)),
        ),
{
    let ghost c = spec_opt_color(color);
    let ghost expected = anim.frames@.map_values(|f: Frame| spec_matrix_step(*settings, f, c));
    let mut steps: Vec<RenderStep> = Vec::new();
    let mut i: usize = 0;
    while i < anim.frames.len()
        invariant
            0 <= i <= anim.frames.len(),
            anim.wf(),
            c == spec_opt_color(color),
            expected == anim.frames@.map_values(|f: Frame| spec_matrix_step(*settings, f, c)),
            expected.len() == anim.frames@.len(),
            steps@.len() == i,
            forall|j: int| 0 <= j < i ==> (#[trigger] steps@[j])@ == expected[j],
        decreases anim.frames.len() - i,
    {
        let step = show_frame(settings, &anim.frames[i], color);
        steps.push(step);
        i = i + 1;
    }
    proof {
        assert(spec_steps_view(steps@) =~= expected);
    }
    steps
}

impl Renderer for LEDMatrixRenderer {
    open spec fn spec_play_steps(&self, anim: Animation, color: Option<Color>) -> Seq<
        RenderStepV,
    > {
        anim.frames@.map_values(|f: Frame| spec_matrix_step(*self, f, color))
    }

    /// Clearing drives every LED of the matrix to black.
    open spec fn spec_clear_output(&self) -> FrameOutputV {
        FrameOutputV::Led(
            Seq::new(
                self.count as nat,
                |j: int| LedWriteV { index: j as usize, color: seq![0u8, 0u8, 0u8, 0u8] },
            ),
        )
    }

    open spec fn spec_config(&self) -> Seq<char> {
        "\t-Use gamma correction: "@ + spec_bool_str(self.gamma_table is Some)
    }

    fn play(&mut self, anim: Animation) -> (steps: Vec<RenderStep>) {
        matrix_steps(self, &anim, None)
    }

    fn play_colored(&mut self, anim: Animation, color: &Color) -> (steps: Vec<RenderStep>) {
        let color_opt: Option<&Color> = if anim.grayscale {
            Some(color)
        } else {
            None
        };
        matrix_steps(self, &anim, color_opt)
    }

    fn clear(&mut self) -> (out: FrameOutput) {
        let mut writes: Vec<LedWrite> = Vec::new();
        let mut j: usize = 0;
        let count = self.count;
        while j < count
            invariant
                0 <= j <= count,
                count == self.count,
                writes@.len() == j,
                forall|i: int|
                    0 <= i < j ==> (#[trigger] writes@[i])@ == (LedWriteV {
                        index: i as usize,
                        color: seq![0u8, 0u8, 0u8, 0u8],
                    }),
            decreases count - j,
        {
            let quad: [u8; 4] = [0, 0, 0, 0];
            proof {
                assert(quad@ =~= seq![0u8, 0u8, 0u8, 0u8]);
            }
            writes.push(LedWrite { index: j, color: quad });
            j = j + 1;
        }
        let out = FrameOutput::Led(writes);
        proof {
            assert(writes@.map_values(|w: LedWrite| w@) =~= Seq::new(
                self.count as nat,
                |i: int| LedWriteV { index: i as usize, color: seq![0u8, 0u8, 0u8, 0u8] },
            ));
        }
        out
    }

    fn print_config(&self) -> (s: String) {
        let mut s = String::from_str("\t-Use gamma correction: ");
        s.append(bool_to_str(match &self.gamma_table {
            Some(_) => true,
            None => false,
        }));
        s
    }
}

/// Create a hardware configuration for a generic LED matrix. A matrix
/// smaller than the display's fixed grid is rejected.
pub fn get_led_matrix_config(
    strip_kind: StripKind,
    pin: u8,
    width: usize,
    height: usize,
    brightness: Option<u8>,
    target_freq: Option<u32>,
    dma: Option<u8>,
    inverted: Option<bool>,
) -> (r: Result<LEDHardwareConfig, LEDMatrixError>)
    requires
        width * height <= i32::MAX,
    ensures
        match r {
            Ok(c) => {
                &&& width >= SCREEN_WIDTH && height >= SCREEN_HEIGHT
                &&& c.strip_kind == strip_kind
                &&& c.pin == pin as i32
                &&& c.count == width * height
                &&& c.brightness == (match brightness {
                    Some(b) => b,
                    None => BRIGHTNESS,
                })
                &&& c.frequenz == (match target_freq {
                    Some(f) => f,
                    None => TARGET_FREQ,
                })
                &&& c.dma == (match dma {
                    Some(d) => d,
                    None => DMA,
                }) as i32
                &&& c.inverted == (match inverted {
                    Some(i) => i,
                    None => INVERTED,
                })
            },
            Err(_) => width < SCREEN_WIDTH || height < SCREEN_HEIGHT,
        },
{
    // the renderer must fit the fixed grid
    if width < SCREEN_WIDTH || height < SCREEN_HEIGHT {
        return Err(LEDMatrixError::Other(String::from_str("Display size to small!")));
    }
    let count = width * height;
    Ok(
        LEDHardwareConfig {
            strip_kind,
            pin: pin as i32,
            count: count as i32,
            brightness: match brightness {
                Some(b) => b,
                None => BRIGHTNESS,
            },
            frequenz: match target_freq {
                Some(f) => f,
                None => TARGET_FREQ,
            },
            dma: (match dma {
                Some(d) => d,
                None => DMA,
            }) as i32,
            inverted: match inverted {
                Some(i) => i,
                None => INVERTED,
            },
        },
    )
}

} // verus!
