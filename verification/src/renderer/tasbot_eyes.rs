//! The renderer for the target device's fixed LED matrix: the logical
//! grid maps through a fixed, non-rectangular pixel-index table to
//! physical strip positions; cells with no physical LED are skipped.

use vstd::arithmetic::div_mod::lemma_fundamental_div_mod_converse;
use vstd::prelude::*;

use crate::color::Color;
use crate::gif::Animation;
use crate::gif::Frame;
use crate::led::LEDHardwareConfig;
use crate::led::StripKind;
use crate::renderer::FrameOutput;
use crate::renderer::FrameOutputV;
use crate::renderer::LedWrite;
use crate::renderer::LedWriteV;
use crate::renderer::RenderStep;
use crate::renderer::RenderStepV;
use crate::renderer::Renderer;
use crate::renderer::led_color;
use crate::renderer::spec_led_color;
use crate::renderer::spec_opt_color;
use crate::renderer::spec_opt_gamma;
use crate::renderer::spec_steps_view;
use crate::text::spec_bool_str;
use crate::text::bool_to_str;

verus! {

/// The width of the display.
pub const SCREEN_WIDTH: usize = 28;

/// The height of the display.
pub const SCREEN_HEIGHT: usize = 8;

/// The actual count of LEDs the display has.
pub const NUM_PIXELS: u32 = 154;

/// The frequency of the pulse wave signal for the display.
pub const TARGET_FREQ: u32 = 800_000;

/// The DMA channel the display uses on the Raspberry Pi.
pub const DMA: u8 = 10;

/// If the LEDs are in the inverted order.
pub const INVERTED: bool = false;

/// The default GPIO pin the display is using on the Raspberry Pi.
pub const DEFAULT_GPIO_PIN: u8 = 10;

/// The default brightness of the LEDs.
pub const DEFAULT_BRIGHTNESS: u8 = 4;

/// Create a hardware configuration fitting the target device's
/// display: an SK6812 strip of 154 LEDs, with the default pin and
/// brightness where none are given.
pub fn get_tasbot_eye_config(pin: Option<u8>, brightness: Option<u8>) -> (c: LEDHardwareConfig)
    ensures
        c.frequenz == TARGET_FREQ,
        c.dma == DMA as i32,
        c.pin == (match pin {
            Some(p) => p,
            None => DEFAULT_GPIO_PIN,
        }) as i32,
        c.count == NUM_PIXELS as i32,
        c.strip_kind == StripKind::Sk6812,
        c.brightness == (match brightness {
            Some(b) => b,
            None => DEFAULT_BRIGHTNESS,
        }),
        c.inverted == INVERTED,
{
    LEDHardwareConfig {
        frequenz: TARGET_FREQ,
        dma: DMA as i32,
        pin: (match pin {
            Some(p) => p,
            None => DEFAULT_GPIO_PIN,
        }) as i32,
        count: NUM_PIXELS as i32,
        strip_kind: StripKind::Sk6812,
        brightness: match brightness {
            Some(b) => b,
            None => DEFAULT_BRIGHTNESS,
        },
        inverted: INVERTED,
    }
}

/// The translation table that converts a 2D grid index to the actual
/// strip index on the display, row by row; -1 marks a cell with no
/// physical LED. This captures the non-rectangular physical wiring;
/// it is pure data and never changes.
pub open spec fn spec_pixel_positions() -> Seq<Seq<i32>> {
    seq![
        seq![-1i32, -1i32, 0, 1, 2, 3, -1i32, -1i32, -1i32, -1i32, 101, 100, 99, 98, 97, 96, 95, 94, -1i32, -1i32, -1i32, -1i32, 105, 104, 103, 102, -1i32, -1i32],
        seq![-1i32, 4, 5, 6, 7, 8, 9, -1i32, -1i32, 84, 85, 86, 87, 88, 89, 90, 91, 92, 93, -1i32, -1i32, 111, 110, 109, 108, 107, 106, -1i32],
        seq![10i32, 11, 12, 13, 14, 15, 16, 17, -1i32, -1i32, -1i32, -1i32, -1i32, -1i32, -1i32, -1i32, -1i32, -1i32, -1i32, -1i32, 119, 118, 117, 116, 115, 114, 113, 112],
        seq![18i32, 19, 20, 21, 22, 23, 24, 25, -1i32, -1i32, -1i32, 83, 82, 81, 80, 79, 78, -1i32, -1i32, -1i32, 127, 126, 125, 124, 123, 122, 121, 120],
        seq![26i32, 27, 28, 29, 30, 31, 32, 33, -1i32, -1i32, 70, 71, 72, 73, 74, 75, 76, 77, -1i32, -1i32, 135, 134, 133, 132, 131, 130, 129, 128],
        seq![34i32, 35, 36, 37, 38, 39, 40, 41, -1i32, -1i32, -1i32, -1i32, -1i32, -1i32, -1i32, -1i32, -1i32, -1i32, -1i32, -1i32, 143, 142, 141, 140, 139, 138, 137, 136],
        seq![-1i32, 42, 43, 44, 45, 46, 47, -1i32, -1i32, -1i32, 68, 67, 66, 65, 64, 63, 62, 61, -1i32, -1i32, -1i32, 149, 148, 147, 146, 145, 144, -1i32],
        seq![-1i32, -1i32, 48, 49, 50, 51, -1i32, -1i32, -1i32, 69, 52, 53, 54, 55, 56, 57, 58, 59, 60, -1i32, -1i32, -1i32, 153, 152, 151, 150, -1i32, -1i32],
    ]
}

/// Build the translation table.
pub fn pixel_positions() -> (t: Vec<Vec<i32>>)
    ensures
        t@.map_values(|row: Vec<i32>| row@) == spec_pixel_positions(),
{
    let row0: Vec<i32> = vec![-1, -1, 0, 1, 2, 3, -1, -1, -1, -1, 101, 100, 99, 98, 97, 96, 95, 94, -1, -1, -1, -1, 105, 104, 103, 102, -1, -1];
    let row1: Vec<i32> = vec![-1, 4, 5, 6, 7, 8, 9, -1, -1, 84, 85, 86, 87, 88, 89, 90, 91, 92, 93, -1, -1, 111, 110, 109, 108, 107, 106, -1];
    let row2: Vec<i32> = vec![10, 11, 12, 13, 14, 15, 16, 17, -1, -1, -1, -1, -1, -1, -1, -1, -1, -1, -1, -1, 119, 118, 117, 116, 115, 114, 113, 112];
    let row3: Vec<i32> = vec![18, 19, 20, 21, 22, 23, 24, 25, -1, -1, -1, 83, 82, 81, 80, 79, 78, -1, -1, -1, 127, 126, 125, 124, 123, 122, 121, 120];
    let row4: Vec<i32> = vec![26, 27, 28, 29, 30, 31, 32, 33, -1, -1, 70, 71, 72, 73, 74, 75, 76, 77, -1, -1, 135, 134, 133, 132, 131, 130, 129, 128];
    let row5: Vec<i32> = vec![34, 35, 36, 37, 38, 39, 40, 41, -1, -1, -1, -1, -1, -1, -1, -1, -1, -1, -1, -1, 143, 142, 141, 140, 139, 138, 137, 136];
    let row6: Vec<i32> = vec![-1, 42, 43, 44, 45, 46, 47, -1, -1, -1, 68, 67, 66, 65, 64, 63, 62, 61, -1, -1, -1, 149, 148, 147, 146, 145, 144, -1];
    let row7: Vec<i32> = vec![-1, -1, 48, 49, 50, 51, -1, -1, -1, 69, 52, 53, 54, 55, 56, 57, 58, 59, 60, -1, -1, -1, 153, 152, 151, 150, -1, -1];
    let t = vec![row0, row1, row2, row3, row4, row5, row6, row7];
    proof {
        assert(row0@ =~= spec_pixel_positions()[0]);
        assert(row1@ =~= spec_pixel_positions()[1]);
        assert(row2@ =~= spec_pixel_positions()[2]);
        assert(row3@ =~= spec_pixel_positions()[3]);
        assert(row4@ =~= spec_pixel_positions()[4]);
        assert(row5@ =~= spec_pixel_positions()[5]);
        assert(row6@ =~= spec_pixel_positions()[6]);
        assert(row7@ =~= spec_pixel_positions()[7]);
        assert(t@.map_values(|row: Vec<i32>| row@) =~= spec_pixel_positions());
    }
    t
}

/// Configuration for the target device's renderer.
pub struct TASBotRendererSettings {
    /// The lookup table to pass each color channel through, when gamma
    /// correction is on: one corrected value per channel value.
    pub gamma_table: Option<Vec<u8>>,
}

/// The settings' gamma table, viewed.
pub open spec fn spec_settings_gamma(s: TASBotRendererSettings) -> Option<Seq<u8>> {
    match s.gamma_table {
        Some(t) => Some(t@),
        None => None,
    }
}

/// The cells in the order the renderer walks them: column by column,
/// top to bottom within a column; entry `k` is cell `(k % 8, k / 8)`.
pub open spec fn spec_cell_order() -> Seq<(int, int)> {
    Seq::new(
        (SCREEN_WIDTH * SCREEN_HEIGHT) as nat,
        |k: int| (k % (SCREEN_HEIGHT as int), k / (SCREEN_HEIGHT as int)),
    )
}

/// The write one cell contributes, where it has a physical LED.
pub open spec fn spec_cell_write(
    f: Frame,
    color: Option<Color>,
    gamma: Option<Seq<u8>>,
    yx: (int, int),
) -> Option<LedWriteV> {
    let pos = spec_pixel_positions()[yx.0][yx.1];
    if pos >= 0 {
        Some(
            LedWriteV {
                index: pos as usize,
                color: spec_led_color(f.grid()[yx.0][yx.1], color, gamma),
            },
        )
    } else {
        None
    }
}

/// The writes of the first `k` walked cells.
pub open spec fn spec_tasbot_writes_upto(
    f: Frame,
    color: Option<Color>,
    gamma: Option<Seq<u8>>,
    k: int,
) -> Seq<LedWriteV> {
    spec_cell_order().take(k).filter_map(|yx: (int, int)| spec_cell_write(f, color, gamma, yx))
}

/// The writes one frame drives: one write per cell with a physical
/// LED, in walking order, with the resolved color.
pub open spec fn spec_tasbot_writes(f: Frame, color: Option<Color>, gamma: Option<Seq<u8>>) -> Seq<
    LedWriteV,
> {
    spec_tasbot_writes_upto(f, color, gamma, (SCREEN_WIDTH * SCREEN_HEIGHT) as int)
}

/// The one step a frame contributes: its writes, then its delay.
pub open spec fn spec_tasbot_step(
    s: TASBotRendererSettings,
    f: Frame,
    color: Option<Color>,
) -> RenderStepV {
    RenderStepV {
        output: FrameOutputV::Led(spec_tasbot_writes(f, color, spec_settings_gamma(s))),
        delay_ms: (f.delay * 10) as u64,
    }
}

/// Handle one frame that is to be rendered on the display.
pub fn show_frame(settings: &TASBotRendererSettings, frame: &Frame, color: Option<&Color>) -> (step:
    RenderStep)
    requires
        frame.wf(),
    ensures
        step@ == spec_tasbot_step(*settings, *frame, spec_opt_color(color)),
{
    let ghost c = spec_opt_color(color);
    let ghost g = spec_settings_gamma(*settings);
    let positions = pixel_positions();
    let gamma: Option<&Vec<u8>> = match &settings.gamma_table {
        Some(t) => Some(t),
        None => None,
    };
    proof {
        assert(spec_opt_gamma(gamma) == g);
        assert(positions@.len() == positions@.map_values(|row: Vec<i32>| row@).len());
        assert(spec_pixel_positions().len() == 8);
    }
    let mut writes: Vec<LedWrite> = Vec::new();
    let mut x: usize = 0;
    while x < SCREEN_WIDTH
        invariant
            0 <= x <= SCREEN_WIDTH,
            frame.wf(),
            c == spec_opt_color(color),
            g == spec_settings_gamma(*settings),
            spec_opt_gamma(gamma) == g,
            positions@.map_values(|row: Vec<i32>| row@) == spec_pixel_positions(),
            positions@.len() == 8,
            writes@.map_values(|w: LedWrite| w@) == spec_tasbot_writes_upto(
                *frame,
                c,
                g,
                8 * x,
            ),
        decreases SCREEN_WIDTH - x,
    {
        let mut y: usize = 0;
        while y < SCREEN_HEIGHT
            invariant
                0 <= y <= SCREEN_HEIGHT,
                0 <= x < SCREEN_WIDTH,
                frame.wf(),
                c == spec_opt_color(color),
                g == spec_settings_gamma(*settings),
                spec_opt_gamma(gamma) == g,
                positions@.map_values(|row: Vec<i32>| row@) == spec_pixel_positions(),
                positions@.len() == 8,
                writes@.map_values(|w: LedWrite| w@) == spec_tasbot_writes_upto(
                    *frame,
                    c,
                    g,
                    8 * x + y,
                ),
            decreases SCREEN_HEIGHT - y,
        {
            let ghost k: int = 8 * (x as int) + (y as int);
            proof {
                lemma_fundamental_div_mod_converse(k, 8, x as int, y as int);
                assert(spec_cell_order()[k] == ((y as int), (x as int)));
                assert(spec_cell_order().take(k + 1).drop_last() =~= spec_cell_order().take(k));
                assert(spec_cell_order().take(k + 1).last() == spec_cell_order()[k]);
                assert((#[trigger] positions@.map_values(|row: Vec<i32>| row@)[y as int])
                    == positions@[y as int]@);
                assert(positions@[y as int]@.len() == 28) by {
                    assert(spec_pixel_positions()[y as int].len() == 28);
                }
            }
            let pos = positions[y][x];
            proof {
                assert(pos == spec_pixel_positions()[y as int][x as int]);
            }
            if pos >= 0 {
                let frame_row = &frame.pixels[y];
                proof {
                    assert(frame.grid()[y as int][x as int] == frame_row@[x as int]);
                }
                let quad = led_color(&frame_row[x], color, gamma);
                writes.push(LedWrite { index: pos as usize, color: quad });
                proof {
                    assert(writes@.map_values(|w: LedWrite| w@) =~= spec_tasbot_writes_upto(
                        *frame,
                        c,
                        g,
                        k + 1,
                    ));
                }
            } else {
                proof {
                    assert(writes@.map_values(|w: LedWrite| w@) =~= spec_tasbot_writes_upto(
                        *frame,
                        c,
                        g,
                        k + 1,
                    ));
                }
            }
            y = y + 1;
        }
        x = x + 1;
    }
    proof {
        assert(writes@.map_values(|w: LedWrite| w@) == spec_tasbot_writes(*frame, c, g));
    }
    RenderStep { output: FrameOutput::Led(writes), delay_ms: (frame.delay as u64) * 10 }
}

/// The steps the display's renderer performs for an animation.
fn tasbot_steps(settings: &TASBotRendererSettings, anim: &Animation, color: Option<&Color>) -> (steps:
    Vec<RenderStep>)
    requires
        anim.wf(),
    ensures
        spec_steps_view(steps@) == anim.frames@.map_values(
            |f: Frame| spec_tasbot_step(*settings, f, spec_opt_color(color)),
        ),
{
    let ghost c = spec_opt_color(color);
    let ghost expected = anim.frames@.map_values(|f: Frame| spec_tasbot_step(*settings, f, c));
    let mut steps: Vec<RenderStep> = Vec::new();
    let mut i: usize = 0;
    while i < anim.frames.len()
        invariant
            0 <= i <= anim.frames.len(),
            anim.wf(),
            c == spec_opt_color(color),
            expected == anim.frames@.map_values(|f: Frame| spec_tasbot_step(*settings, f, c)),
            expected.len() == anim.frames@.len(),
            steps@.len() == i,
            forall|j: int| 0 <= j < i ==> (#[trigger] steps@[j])@ == expected[j],
        decreases anim.frames.len() - i,
    {
        let step = show_frame(settings, &anim.frames[i], color);
        steps.push(step);
        i = i + 1;
    }
    proof {
        assert(spec_steps_view(steps@) =~= expected);
    }
    steps
}

impl Renderer for TASBotRendererSettings {
    open spec fn spec_play_steps(&self, anim: Animation, color: Option<Color>) -> Seq<
        RenderStepV,
    > {
        anim.frames@.map_values(|f: Frame| spec_tasbot_step(*self, f, color))
    }

    /// Clearing drives every physical LED to black.
    open spec fn spec_clear_output(&self) -> FrameOutputV {
        FrameOutputV::Led(
            Seq::new(
                NUM_PIXELS as nat,
                |j: int| LedWriteV { index: j as usize, color: seq![0u8, 0u8, 0u8, 0u8] },
            ),
        )
    }

    open spec fn spec_config(&self) -> Seq<char> {
        "\t-Use gamma correction: "@ + spec_bool_str(self.gamma_table is Some)
    }

    fn play(&mut self, anim: Animation) -> (steps: Vec<RenderStep>) {
        tasbot_steps(self, &anim, None)
    }

    fn play_colored(&mut self, anim: Animation, color: &Color) -> (steps: Vec<RenderStep>) {
        let color_opt: Option<&Color> = if anim.grayscale {
            Some(color)
        } else {
            None
        };
        tasbot_steps(self, &anim, color_opt)
    }

    fn clear(&mut self) -> (out: FrameOutput) {
        let mut writes: Vec<LedWrite> = Vec::new();
        let mut j: usize = 0;
        while j < 154
            invariant
                0 <= j <= 154,
                writes@.len() == j,
                forall|i: int|
                    0 <= i < j ==> (#[trigger] writes@[i])@ == (LedWriteV {
                        index: i as usize,
                        color: seq![0u8, 0u8, 0u8, 0u8],
                    }),
            decreases 154 - j,
        {
            let quad: [u8; 4] = [0, 0, 0, 0];
            proof {
                assert(quad@ =~= seq![0u8, 0u8, 0u8, 0u8]);
            }
            writes.push(LedWrite { index: j, color: quad });
            j = j + 1;
        }
        let out = FrameOutput::Led(writes);
        proof {
            assert(writes@.map_values(|w: LedWrite| w@) =~= Seq::new(
                NUM_PIXELS as nat,
                |i: int| LedWriteV { index: i as usize, color: seq![0u8, 0u8, 0u8, 0u8] },
            ));
        }
        out
    }

    fn print_config(&self) -> (s: String) {
        let mut s = String::from_str("\t-Use gamma correction: ");
        s.append(bool_to_str(match &self.gamma_table {
            Some(_) => true,
            None => false,
        }));
        s
    }
}

} // verus!
