//! Reading GIF data into fixed-size frame buffers, and the grayscale
//! classification that decides whether an animation may be recolored.

use vstd::prelude::*;
use vstd::string::*;

use crate::HEIGHT;
use crate::WIDTH;

verus! {

/// Failures of reading an animation.
#[derive(Debug)]
pub enum GifError {
    /// An IO error occurred; the payload is its message.
    Io(String),
    /// The GIF data is malformed; the payload is its message.
    Decode(String),
}

/// A single pixel of a frame.
#[derive(Copy, Clone, Eq, PartialEq, Structural, Debug)]
pub struct Pixel {
    /// Red channel.
    pub r: u8,
    /// Green channel.
    pub g: u8,
    /// Blue channel.
    pub b: u8,
    /// (Unused) alpha channel.
    pub a: u8,
}

/// A single frame of an animation with its delay.
#[derive(Eq, PartialEq, Debug)]
pub struct Frame {
    /// The grid of all pixels of this frame: `HEIGHT` rows of `WIDTH`
    /// pixels each.
    pub pixels: Vec<Vec<Pixel>>,
    /// The delay of the frame, meaning the duration this frame is
    /// shown, in multiples of 10 ms, per GIF convention.
    pub delay: u16,
}

/// All the needed data from a GIF file.
#[derive(Debug)]
pub struct Animation {
    /// All frames the GIF animation contains.
    pub frames: Vec<Frame>,
    /// Indicates that **all** pixels of the animation are grayscale.
    /// A single non-gray pixel in any frame makes the entire animation
    /// count as not grayscale.
    pub grayscale: bool,
}

/// A pixel's channel values as text.
pub open spec fn spec_pixel_text(p: Pixel) -> Seq<char> {
    "Pixel: R:"@ + crate::text::spec_decimal(p.r as nat) + ", G:"@ + crate::text::spec_decimal(
        p.g as nat,
    ) + ", B:"@ + crate::text::spec_decimal(p.b as nat) + ", A:"@ + crate::text::spec_decimal(
        p.a as nat,
    )
}

impl Pixel {
    /// The pixel shown as its individual channel values.
    pub fn describe(&self) -> (s: String)
        ensures
            s@ == spec_pixel_text(*self),
    {
        let mut s = String::from_str("Pixel: R:");
        s.append(crate::text::u64_to_string(self.r as u64).as_str());
        s.append(", G:");
        s.append(crate::text::u64_to_string(self.g as u64).as_str());
        s.append(", B:");
        s.append(crate::text::u64_to_string(self.b as u64).as_str());
        s.append(", A:");
        s.append(crate::text::u64_to_string(self.a as u64).as_str());
        s
    }
}

/// Whether a pixel is gray: equal red, green and blue channels.
pub open spec fn spec_pixel_grayscale(p: Pixel) -> bool {
    p.r == p.g && p.g == p.b
}

/// Whether a pixel is black on all three color channels.
pub open spec fn spec_pixel_black(p: Pixel) -> bool {
    p.r == 0 && p.g == 0 && p.b == 0
}

impl Frame {
    /// The pixel grid as a sequence of rows.
    pub open spec fn grid(self) -> Seq<Seq<Pixel>> {
        self.pixels@.map_values(|row: Vec<Pixel>| row@)
    }

    /// A frame is well-formed when its grid has exactly `HEIGHT` rows
    /// of `WIDTH` pixels each.
    pub open spec fn wf(self) -> bool {
        &&& self.grid().len() == HEIGHT
        &&& forall|y: int| 0 <= y < HEIGHT ==> (#[trigger] self.grid()[y]).len() == WIDTH
    }
}

impl Animation {
    /// An animation is well-formed when every frame is.
    pub open spec fn wf(self) -> bool {
        forall|i: int| 0 <= i < self.frames@.len() ==> (#[trigger] self.frames@[i]).wf()
    }
}

/// Whether every pixel of a frame is gray.
pub open spec fn spec_frame_grayscale(f: Frame) -> bool {
    forall|y: int, x: int|
        0 <= y < HEIGHT && 0 <= x < WIDTH ==> spec_pixel_grayscale(#[trigger] f.grid()[y][x])
}

/// Check if a given pixel is black.
pub fn pixel_is_black(pixel: &Pixel) -> (r: bool)
    ensures
        r == spec_pixel_black(*pixel),
{
    pixel.r == 0 && pixel.g == 0 && pixel.b == 0
}

/// Check if a given pixel is grayscale.
pub fn pixel_is_grayscale(pixel: &Pixel) -> (r: bool)
    ensures
        r == spec_pixel_grayscale(*pixel),
{
    pixel.r == pixel.g && pixel.g == pixel.b
}

/// Check if a given frame is grayscale by checking all its pixels.
pub fn frame_is_grayscale(frame: &Frame) -> (r: bool)
    requires
        frame.wf(),
    ensures
        r == spec_frame_grayscale(*frame),
{
    let mut y: usize = 0;
    while y < HEIGHT
        invariant
            0 <= y <= HEIGHT,
            frame.wf(),
            forall|y2: int, x2: int|
                0 <= y2 < y && 0 <= x2 < WIDTH ==> spec_pixel_grayscale(
                    #[trigger] frame.grid()[y2][x2],
                ),
        decreases HEIGHT - y,
    {
        let row = &frame.pixels[y];
        let mut x: usize = 0;
        while x < WIDTH
            invariant
                0 <= x <= WIDTH,
                0 <= y < HEIGHT,
                frame.wf(),
                row == &frame.pixels[y as int],
                forall|x2: int|
                    0 <= x2 < x ==> spec_pixel_grayscale(#[trigger] frame.grid()[y as int][x2]),
            decreases WIDTH - x,
        {
            proof {
                assert(frame.grid()[y as int][x as int] == row@[x as int]);
            }
            if !pixel_is_grayscale(&row[x]) {
                // a single colorful pixel decides the whole frame
                return false;
            }
            x = x + 1;
        }
        y = y + 1;
    }
    true
}

/// The pixel encoded at grid position `(y, x)` of a flat RGBA buffer in
/// row-major order.
pub open spec fn spec_pixel_at(buf: Seq<u8>, y: int, x: int) -> Pixel {
    let i = 4 * (y * WIDTH + x);
    Pixel { r: buf[i], g: buf[i + 1], b: buf[i + 2], a: buf[i + 3] }
}

/// Read one raw RGBA frame buffer into a frame of our own kind, using
/// row-major reconstruction: buffer index `i`, stepping by 4 channel
/// bytes, maps to grid position `(i/4 / WIDTH, i/4 % WIDTH)`.
pub fn read_frame(buffer: &Vec<u8>, delay: u16) -> (f: Frame)
    requires
        buffer@.len() == 4 * HEIGHT * WIDTH,
    ensures
        f.wf(),
        f.delay == delay,
        forall|y: int, x: int|
            0 <= y < HEIGHT && 0 <= x < WIDTH ==> #[trigger] f.grid()[y][x] == spec_pixel_at(
                buffer@,
                y,
                x,
            ),
{
    let mut rows: Vec<Vec<Pixel>> = Vec::new();
    let mut y: usize = 0;
    while y < HEIGHT
        invariant
            0 <= y <= HEIGHT,
            buffer@.len() == 4 * HEIGHT * WIDTH,
            rows@.len() == y,
            forall|y2: int| 0 <= y2 < y ==> (#[trigger] rows@[y2])@.len() == WIDTH,
            forall|y2: int, x2: int|
                0 <= y2 < y && 0 <= x2 < WIDTH ==> #[trigger] rows@[y2]@[x2] == spec_pixel_at(
                    buffer@,
                    y2,
                    x2,
                ),
        decreases HEIGHT - y,
    {
        let mut row: Vec<Pixel> = Vec::new();
        let mut x: usize = 0;
        while x < WIDTH
            invariant
                0 <= x <= WIDTH,
                0 <= y < HEIGHT,
                buffer@.len() == 4 * HEIGHT * WIDTH,
                row@.len() == x,
                forall|x2: int|
                    0 <= x2 < x ==> #[trigger] row@[x2] == spec_pixel_at(buffer@, y as int, x2),
            decreases WIDTH - x,
        {
            let i = 4 * (y * WIDTH + x);
            row.push(Pixel { r: buffer[i], g: buffer[i + 1], b: buffer[i + 2], a: buffer[i + 3] });
            x = x + 1;
        }
        rows.push(row);
        y = y + 1;
    }
    let f = Frame { pixels: rows, delay };
    proof {
        assert(forall|y2: int| 0 <= y2 < HEIGHT ==> #[trigger] f.grid()[y2] == f.pixels@[y2]@);
    }
    f
}

/// One frame as the GIF decoder hands it out: the flat RGBA pixel
/// buffer and the frame's delay in multiples of 10 ms.
pub struct RawGifFrame {
    /// Four bytes per pixel, in row-major order.
    pub buffer: Vec<u8>,
    /// The frame's delay.
    pub delay: u16,
}

impl View for RawGifFrame {
    type V = (Seq<u8>, u16);

    open spec fn view(&self) -> (Seq<u8>, u16) {
        (self.buffer@, self.delay)
    }
}

/// The raw RGBA frames that decoding a GIF byte stream yields, or
/// `None` when the stream is malformed. Decoding is a pure function of
/// the bytes alone.
pub uninterp spec fn spec_decoded_frames(data: Seq<u8>) -> Option<Seq<(Seq<u8>, u16)>>;

/// Relies on gif's `DecodeOptions` and `Decoder`, configured for RGBA
/// color output: decoding works on the bytes alone and deterministically
/// yields each frame's flat RGBA buffer and delay, or fails on
/// malformed data.
#[verifier::external_body]
fn decode_gif_rgba(data: &Vec<u8>) -> (r: Option<Vec<RawGifFrame>>)
    ensures
        match spec_decoded_frames(data@) {
            Some(fs) => match r {
                Some(v) => v@.len() == fs.len() && forall|i: int|
                    0 <= i < fs.len() ==> (#[trigger] v@[i])@ == fs[i],
                None => false,
            },
            None => r is None,
        },
{
    let mut options = gif::DecodeOptions::new();
    options.set_color_output(gif::ColorOutput::RGBA);
    let mut decoder = match options.read_info(data.as_slice()) {
        Ok(d) => d,
        Err(_) => return None,
    };
    let mut frames: Vec<RawGifFrame> = Vec::new();
    loop {
        match decoder.read_next_frame() {
            Ok(Some(f)) => frames.push(RawGifFrame { buffer: f.buffer.to_vec(), delay: f.delay }),
            Ok(None) => return Some(frames),
            Err(_) => return None,
        }
    }
}

/// Whether a raw frame holds exactly the bytes of one full pixel grid.
pub open spec fn spec_raw_frame_ok(raw: (Seq<u8>, u16)) -> bool {
    raw.0.len() == 4 * HEIGHT * WIDTH
}

/// Whether every raw frame holds exactly one full pixel grid.
pub open spec fn spec_all_frames_ok(fs: Seq<(Seq<u8>, u16)>) -> bool {
    forall|i: int| 0 <= i < fs.len() ==> spec_raw_frame_ok(#[trigger] fs[i])
}

/// Whether a frame is the faithful reconstruction of a raw frame.
pub open spec fn spec_frame_matches(f: Frame, raw: (Seq<u8>, u16)) -> bool {
    &&& f.wf()
    &&& f.delay == raw.1
    &&& forall|y: int, x: int|
        0 <= y < HEIGHT && 0 <= x < WIDTH ==> #[trigger] f.grid()[y][x] == spec_pixel_at(
            raw.0,
            y,
            x,
        )
}

/// Whether every pixel of the first `n` raw frames is gray.
pub open spec fn spec_frames_grayscale_prefix(fs: Seq<(Seq<u8>, u16)>, n: int) -> bool {
    forall|i: int, y: int, x: int|
        0 <= i < n && 0 <= y < HEIGHT && 0 <= x < WIDTH ==> spec_pixel_grayscale(
            #[trigger] spec_pixel_at(fs[i].0, y, x),
        )
}

/// Whether every pixel of every raw frame is gray.
pub open spec fn spec_frames_grayscale(fs: Seq<(Seq<u8>, u16)>) -> bool {
    spec_frames_grayscale_prefix(fs, fs.len() as int)
}

/// What reading an animation from GIF data yields when it succeeds:
/// the decoder accepted the data, every frame holds exactly one full
/// pixel grid, each frame is reconstructed faithfully in order, and
/// the animation is classified grayscale exactly when every pixel of
/// every frame is gray.
pub open spec fn spec_read_animation_ok(data: Seq<u8>, anim: Animation) -> bool {
    &&& spec_decoded_frames(data) matches Some(fs)
    &&& {
        let fs = spec_decoded_frames(data).unwrap();
        &&& spec_all_frames_ok(fs)
        &&& anim.frames@.len() == fs.len()
        &&& forall|i: int|
            0 <= i < fs.len() ==> spec_frame_matches(#[trigger] anim.frames@[i], fs[i])
        &&& anim.grayscale == spec_frames_grayscale(fs)
    }
}

/// Read an animation from the bytes of a GIF file. Fails when the data
/// is malformed or any frame does not hold exactly `HEIGHT`×`WIDTH`
/// pixels.
pub fn read_animation(data: &Vec<u8>) -> (r: Result<Animation, GifError>)
    ensures
        match r {
            Ok(anim) => spec_read_animation_ok(data@, anim),
            Err(e) => {
                &&& e matches GifError::Decode(_)
                &&& match spec_decoded_frames(data@) {
                    Some(fs) => !spec_all_frames_ok(fs),
                    None => true,
                }
            },
        },
{
    let raws = match decode_gif_rgba(data) {
        Some(raws) => raws,
        None => {
            return Err(GifError::Decode(String::from_str("The GIF data is malformed")));
        },
    };
    let ghost fs = spec_decoded_frames(data@).unwrap();
    let mut frames: Vec<Frame> = Vec::new();
    let mut grayscale = true;
    let mut i: usize = 0;
    while i < raws.len()
        invariant
            0 <= i <= raws.len(),
            spec_decoded_frames(data@) == Some(fs),
            raws@.len() == fs.len(),
            forall|j: int| 0 <= j < fs.len() ==> (#[trigger] raws@[j])@ == fs[j],
            forall|j: int| 0 <= j < i ==> spec_raw_frame_ok(#[trigger] fs[j]),
            frames@.len() == i,
            forall|j: int| 0 <= j < i ==> spec_frame_matches(#[trigger] frames@[j], fs[j]),
            grayscale == spec_frames_grayscale_prefix(fs, i as int),
        decreases raws.len() - i,
    {
        let raw = &raws[i];
        proof {
            assert(raw@ == fs[i as int]);
        }
        if raw.buffer.len() != 4 * HEIGHT * WIDTH {
            return Err(
                GifError::Decode(
                    String::from_str("A frame does not hold exactly one full pixel grid"),
                ),
            );
        }
        let frame = read_frame(&raw.buffer, raw.delay);
        if grayscale {
            grayscale = frame_is_grayscale(&frame);
            proof {
                lemma_prefix_step(fs, i as int, frame);
            }
        } else {
            proof {
                assert(!spec_frames_grayscale_prefix(fs, i + 1)) by {
                    assert(!spec_frames_grayscale_prefix(fs, i as int));
                }
            }
        }
        frames.push(frame);
        i = i + 1;
    }
    Ok(Animation { frames, grayscale })
}

/// Everything rendering reads from an animation: each frame's pixel
/// grid and delay, and the grayscale classification.
pub open spec fn spec_animation_view(a: Animation) -> (Seq<(Seq<Seq<Pixel>>, u16)>, bool) {
    (a.frames@.map_values(|f: Frame| (f.grid(), f.delay)), a.grayscale)
}

/// Decoding is deterministic: two animations read from the same GIF
/// data are pixel-identical, frame for frame, with the same delays and
/// the same grayscale classification.
pub proof fn lemma_decode_deterministic(data: Seq<u8>, a1: Animation, a2: Animation)
    requires
        spec_read_animation_ok(data, a1),
        spec_read_animation_ok(data, a2),
    ensures
        spec_animation_view(a1) == spec_animation_view(a2),
{
    let fs = spec_decoded_frames(data).unwrap();
    let v1 = a1.frames@.map_values(|f: Frame| (f.grid(), f.delay));
    let v2 = a2.frames@.map_values(|f: Frame| (f.grid(), f.delay));
    assert forall|i: int| 0 <= i < fs.len() implies v1[i] == v2[i] by {
        let f1 = a1.frames@[i];
        let f2 = a2.frames@[i];
        assert(spec_frame_matches(f1, fs[i]));
        assert(spec_frame_matches(f2, fs[i]));
        assert forall|y: int| 0 <= y < HEIGHT implies #[trigger] f1.grid()[y] == f2.grid()[y] by {
            assert forall|x: int| 0 <= x < WIDTH implies #[trigger] f1.grid()[y][x]
                == f2.grid()[y][x] by {
                assert(f1.grid()[y][x] == spec_pixel_at(fs[i].0, y, x));
                assert(f2.grid()[y][x] == spec_pixel_at(fs[i].0, y, x));
            }
            assert(f1.grid()[y] =~= f2.grid()[y]);
        }
        assert(f1.grid() =~= f2.grid());
    }
    assert(v1 =~= v2);
}

/// Grayscale classification: an animation is classified grayscale
/// exactly when every pixel of every frame has equal red, green and
/// blue channels; a single colorful pixel anywhere decides it.
pub proof fn lemma_grayscale_classification(data: Seq<u8>, anim: Animation)
    requires
        spec_read_animation_ok(data, anim),
    ensures
        anim.grayscale <==> forall|i: int, y: int, x: int|
            0 <= i < anim.frames@.len() && 0 <= y < HEIGHT && 0 <= x < WIDTH
                ==> spec_pixel_grayscale(#[trigger] anim.frames@[i].grid()[y][x]),
{
    let fs = spec_decoded_frames(data).unwrap();
    if anim.grayscale {
        assert forall|i: int, y: int, x: int|
            0 <= i < anim.frames@.len() && 0 <= y < HEIGHT && 0 <= x < WIDTH
                implies spec_pixel_grayscale(#[trigger] anim.frames@[i].grid()[y][x]) by {
            assert(spec_frame_matches(anim.frames@[i], fs[i]));
            assert(anim.frames@[i].grid()[y][x] == spec_pixel_at(fs[i].0, y, x));
            assert(spec_pixel_grayscale(spec_pixel_at(fs[i].0, y, x)));
        }
    } else {
        let (i, y, x) = choose|i: int, y: int, x: int|
            0 <= i < fs.len() && 0 <= y < HEIGHT && 0 <= x < WIDTH && !spec_pixel_grayscale(
                #[trigger] spec_pixel_at(fs[i].0, y, x),
            );
        assert(spec_frame_matches(anim.frames@[i], fs[i]));
        assert(anim.frames@[i].grid()[y][x] == spec_pixel_at(fs[i].0, y, x));
        assert(!spec_pixel_grayscale(anim.frames@[i].grid()[y][x]));
    }
}

/// Checking one more faithfully reconstructed frame extends the
/// grayscale classification by exactly that frame's pixels.
proof fn lemma_prefix_step(fs: Seq<(Seq<u8>, u16)>, i: int, frame: Frame)
    requires
        0 <= i < fs.len(),
        spec_frame_matches(frame, fs[i]),
        spec_frames_grayscale_prefix(fs, i),
    ensures
        spec_frames_grayscale_prefix(fs, i + 1) == spec_frame_grayscale(frame),
{
    if spec_frame_grayscale(frame) {
        assert forall|j: int, y: int, x: int|
            0 <= j < i + 1 && 0 <= y < HEIGHT && 0 <= x < WIDTH implies spec_pixel_grayscale(
            #[trigger] spec_pixel_at(fs[j].0, y, x),
        ) by {
            if j == i {
                assert(frame.grid()[y][x] == spec_pixel_at(fs[i].0, y, x));
            }
        }
    } else {
        let (y, x) = choose|y: int, x: int|
            0 <= y < HEIGHT && 0 <= x < WIDTH && !spec_pixel_grayscale(
                #[trigger] frame.grid()[y][x],
            );
        assert(spec_pixel_at(fs[i].0, y, x) == frame.grid()[y][x]);
        assert(!spec_frames_grayscale_prefix(fs, i + 1));
    }
}

} // verus!
