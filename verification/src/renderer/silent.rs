//! The renderer that animates no animation at all: it drives nothing
//! to any sink and asks for no waiting, since there is no visual
//! consumer.

use vstd::prelude::*;
use vstd::string::*;

use crate::color::Color;
use crate::gif::Animation;
use crate::renderer::FrameOutput;
use crate::renderer::FrameOutputV;
use crate::renderer::RenderStep;
use crate::renderer::RenderStepV;
use crate::renderer::Renderer;
use crate::renderer::spec_steps_view;

verus! {

/// Configuration for the silent renderer: there is none.
pub struct SilentRendererSettings {}

impl Renderer for SilentRendererSettings {
    open spec fn spec_play_steps(&self, anim: Animation, color: Option<Color>) -> Seq<
        RenderStepV,
    > {
        Seq::empty()
    }

    open spec fn spec_clear_output(&self) -> FrameOutputV {
        FrameOutputV::Nothing
    }

    open spec fn spec_config(&self) -> Seq<char> {
        "No config for silent renderer needed"@
    }

    fn play(&mut self, anim: Animation) -> (steps: Vec<RenderStep>) {
        let steps: Vec<RenderStep> = Vec::new();
        proof {
            assert(spec_steps_view(steps@) =~= Seq::<RenderStepV>::empty());
        }
        steps
    }

    fn play_colored(&mut self, anim: Animation, color: &Color) -> (steps: Vec<RenderStep>) {
        let steps: Vec<RenderStep> = Vec::new();
        proof {
            assert(spec_steps_view(steps@) =~= Seq::<RenderStepV>::empty());
        }
        steps
    }

    fn clear(&mut self) -> (out: FrameOutput) {
        FrameOutput::Nothing
    }

    fn print_config(&self) -> (s: String) {
        String::from_str("No config for silent renderer needed")
    }
}

} // verus!
