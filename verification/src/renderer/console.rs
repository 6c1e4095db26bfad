//! The console renderer: each frame becomes a grid of terminal cells,
//! a blank cell for a black pixel and a colored block for any other,
//! optionally after clearing the screen.

use vstd::prelude::*;
use vstd::string::*;

use crate::HEIGHT;
use crate::WIDTH;
use crate::color::Color;
use crate::gif::Animation;
use crate::gif::Frame;
use crate::gif::Pixel;
use crate::gif::pixel_is_black;
use crate::gif::spec_pixel_black;
use crate::renderer::FrameOutput;
use crate::renderer::FrameOutputV;
use crate::renderer::RenderStep;
use crate::renderer::RenderStepV;
use crate::renderer::Renderer;
use crate::renderer::spec_opt_color;
use crate::renderer::spec_steps_view;
use crate::text::spec_bool_str;
use crate::text::bool_to_str;

verus! {

/// Configuration for the console renderer.
pub struct ConsoleRendererSettings {
    /// Clear the console before every frame.
    pub clear_console: bool,
}

/// The cell a pixel shows: blank for black, otherwise a block in the
/// override color when one applies, else in the pixel's own color.
pub open spec fn spec_console_cell(p: Pixel, color: Option<Color>) -> Option<Color> {
    if spec_pixel_black(p) {
        None
    } else {
        match color {
            Some(c) => Some(c),
            None => Some(Color { r: p.r, g: p.g, b: p.b }),
        }
    }
}

/// The grid of cells a frame shows.
pub open spec fn spec_console_cells(f: Frame, color: Option<Color>) -> Seq<Seq<Option<Color>>> {
    Seq::new(
        HEIGHT as nat,
        |y: int| Seq::new(WIDTH as nat, |x: int| spec_console_cell(f.grid()[y][x], color)),
    )
}

/// The one step a frame contributes: its cell grid, then its delay.
pub open spec fn spec_console_step(
    s: ConsoleRendererSettings,
    f: Frame,
    color: Option<Color>,
) -> RenderStepV {
    RenderStepV {
        output: FrameOutputV::Console {
            clear_first: s.clear_console,
            cells: spec_console_cells(f, color),
        },
        delay_ms: (f.delay * 10) as u64,
    }
}

/// Compute the cells of a frame, with an optional color override
/// already resolved.
pub fn render_frame(frame: &Frame, color: Option<&Color>) -> (cells: Vec<Vec<Option<Color>>>)
    requires
        frame.wf(),
    ensures
        cells@.map_values(|row: Vec<Option<Color>>| row@) == spec_console_cells(
            *frame,
            spec_opt_color(color),
        ),
{
    let ghost c = spec_opt_color(color);
    let mut cells: Vec<Vec<Option<Color>>> = Vec::new();
    let mut y: usize = 0;
    while y < HEIGHT
        invariant
            0 <= y <= HEIGHT,
            frame.wf(),
            c == spec_opt_color(color),
            cells@.len() == y,
            forall|y2: int|
                0 <= y2 < y ==> (#[trigger] cells@[y2])@ == spec_console_cells(*frame, c)[y2],
        decreases HEIGHT - y,
    {
        let frame_row = &frame.pixels[y];
        let mut row: Vec<Option<Color>> = Vec::new();
        let mut x: usize = 0;
        while x < WIDTH
            invariant
                0 <= x <= WIDTH,
                0 <= y < HEIGHT,
                frame.wf(),
                c == spec_opt_color(color),
                frame_row == &frame.pixels[y as int],
                row@.len() == x,
                forall|x2: int|
                    0 <= x2 < x ==> #[trigger] row@[x2] == spec_console_cell(
                        frame.grid()[y as int][x2],
                        c,
                    ),
            decreases WIDTH - x,
        {
            proof {
                assert(frame.grid()[y as int][x as int] == frame_row@[x as int]);
            }
            let p = &frame_row[x];
            let cell: Option<Color> = if pixel_is_black(p) {
                None
            } else {
                match color {
                    Some(col) => Some(*col),
                    None => Some(Color { r: p.r, g: p.g, b: p.b }),
                }
            };
            row.push(cell);
            x = x + 1;
        }
        proof {
            assert(row@ =~= spec_console_cells(*frame, c)[y as int]);
        }
        cells.push(row);
        y = y + 1;
    }
    proof {
        assert(cells@.map_values(|row: Vec<Option<Color>>| row@) =~= spec_console_cells(*frame, c));
    }
    cells
}

/// Handle one frame that is to be rendered in the console.
pub fn show_frame(settings: &ConsoleRendererSettings, frame: &Frame, color: Option<&Color>) -> (step:
    RenderStep)
    requires
        frame.wf(),
    ensures
        step@ == spec_console_step(*settings, *frame, spec_opt_color(color)),
{
    let cells = render_frame(frame, color);
    RenderStep {
        output: FrameOutput::Console { clear_first: settings.clear_console, cells },
        delay_ms: (frame.delay as u64) * 10,
    }
}

/// The steps the console renderer performs for an animation.
fn console_steps(settings: &ConsoleRendererSettings, anim: &Animation, color: Option<&Color>) -> (steps:
    Vec<RenderStep>)
    requires
        anim.wf(),
    ensures
        spec_steps_view(steps@) == anim.frames@.map_values(
            |f: Frame| spec_console_step(*settings, f, spec_opt_color(color)),
        ),
{
    let ghost c = spec_opt_color(color);
    let ghost expected = anim.frames@.map_values(|f: Frame| spec_console_step(*settings, f, c));
    let mut steps: Vec<RenderStep> = Vec::new();
    let mut i: usize = 0;
    while i < anim.frames.len()
        invariant
            0 <= i <= anim.frames.len(),
            anim.wf(),
            c == spec_opt_color(color),
            expected == anim.frames@.map_values(
                |f: Frame| spec_console_step(*settings, f, c),
            ),
            expected.len() == anim.frames@.len(),
            steps@.len() == i,
            forall|j: int| 0 <= j < i ==> (#[trigger] steps@[j])@ == expected[j],
        decreases anim.frames.len() - i,
    {
        let step = show_frame(settings, &anim.frames[i], color);
        steps.push(step);
        i = i + 1;
    }
    proof {
        assert(spec_steps_view(steps@) =~= expected);
    }
    steps
}

impl Renderer for ConsoleRendererSettings {
    open spec fn spec_play_steps(&self, anim: Animation, color: Option<Color>) -> Seq<
        RenderStepV,
    > {
        anim.frames@.map_values(|f: Frame| spec_console_step(*self, f, color))
    }

    /// Clearing the console shows no cells, only the screen clear.
    open spec fn spec_clear_output(&self) -> FrameOutputV {
        FrameOutputV::Console { clear_first: true, cells: Seq::empty() }
    }

    open spec fn spec_config(&self) -> Seq<char> {
        "\t-Clear console after every frame: "@ + spec_bool_str(self.clear_console)
    }

    fn play(&mut self, anim: Animation) -> (steps: Vec<RenderStep>) {
        console_steps(self, &anim, None)
    }

    fn play_colored(&mut self, anim: Animation, color: &Color) -> (steps: Vec<RenderStep>) {
        let color_opt: Option<&Color> = if anim.grayscale {
            Some(color)
        } else {
            None
        };
        console_steps(self, &anim, color_opt)
    }

    fn clear(&mut self) -> (out: FrameOutput) {
        let cells: Vec<Vec<Option<Color>>> = Vec::new();
        let out = FrameOutput::Console { clear_first: true, cells };
        proof {
            assert(cells@.map_values(|row: Vec<Option<Color>>| row@) =~= Seq::<
                Seq<Option<Color>>,
            >::empty());
        }
        out
    }

    fn print_config(&self) -> (s: String) {
        let mut s = String::from_str("\t-Clear console after every frame: ");
        s.append(bool_to_str(self.clear_console));
        s
    }
}

} // verus!
