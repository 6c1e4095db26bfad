use tasbot_eyes::HEIGHT;
use tasbot_eyes::WIDTH;
use tasbot_eyes::gif::Frame;
use tasbot_eyes::gif::GifError;
use tasbot_eyes::gif::Pixel;
use tasbot_eyes::gif::frame_is_grayscale;
use tasbot_eyes::gif::pixel_is_black;
use tasbot_eyes::gif::pixel_is_grayscale;
use tasbot_eyes::gif::read_animation;
use tasbot_eyes::gif::read_frame;

/// Encode one GIF holding the given frames; each frame is a full
/// 28x8 grid of palette indices with its own palette and delay.
fn encode_gif(frames: &[(Vec<u8>, Vec<u8>, u16)]) -> Vec<u8> {
    let mut data = Vec::new();
    {
        let mut encoder =
            gif::Encoder::new(&mut data, WIDTH as u16, HEIGHT as u16, &[]).unwrap();
        for (pixels, palette, delay) in frames {
            let mut frame = gif::Frame::from_palette_pixels(
                WIDTH as u16,
                HEIGHT as u16,
                pixels.clone(),
                palette.clone(),
                None,
            );
            frame.delay = *delay;
            encoder.write_frame(&frame).unwrap();
        }
    }
    data
}

/// A full grid of index 0, with one cell of index 1 at (y, x).
fn one_marked_cell(y: usize, x: usize) -> Vec<u8> {
    let mut pixels = vec![0u8; WIDTH * HEIGHT];
    pixels[y * WIDTH + x] = 1;
    pixels
}

#[test]
fn test_read_animation() {
    // a grayscale animation: black background, one gray pixel
    let gray = encode_gif(&[(one_marked_cell(3, 5), vec![0, 0, 0, 128, 128, 128], 10)]);
    let anim = read_animation(&gray).unwrap();
    assert_eq!(anim.grayscale, true);
    assert_eq!(anim.frames.len(), 1);
    assert_eq!(frame_is_grayscale(&anim.frames[0]), true);

    // a colorful animation: black background, one red pixel
    let colorful = encode_gif(&[(one_marked_cell(3, 5), vec![0, 0, 0, 255, 0, 0], 10)]);
    let anim = read_animation(&colorful).unwrap();
    assert_eq!(anim.grayscale, false);
    assert_eq!(anim.frames.len(), 1);
    assert_eq!(frame_is_grayscale(&anim.frames[0]), false);
}

#[test]
fn test_read_animation_decodes_pixels_and_delay() {
    let data = encode_gif(&[(one_marked_cell(2, 4), vec![0, 0, 0, 10, 20, 30], 50)]);
    let anim = read_animation(&data).unwrap();
    let frame = &anim.frames[0];
    assert_eq!(frame.delay, 50);
    assert_eq!(frame.pixels.len(), HEIGHT);
    assert_eq!(frame.pixels[0].len(), WIDTH);
    assert_eq!(frame.pixels[2][4], Pixel { r: 10, g: 20, b: 30, a: 255 });
    assert_eq!(frame.pixels[0][0], Pixel { r: 0, g: 0, b: 0, a: 255 });
}

#[test]
fn test_read_animation_is_deterministic() {
    let data = encode_gif(&[
        (one_marked_cell(1, 1), vec![0, 0, 0, 200, 100, 50], 7),
        (one_marked_cell(7, 27), vec![0, 0, 0, 1, 2, 3], 9),
    ]);
    let a = read_animation(&data).unwrap();
    let b = read_animation(&data).unwrap();
    assert_eq!(a.grayscale, b.grayscale);
    assert_eq!(a.frames, b.frames);
}

#[test]
fn test_read_animation_one_colorful_frame_decides() {
    // the first frame is gray, the second holds one colorful pixel
    let data = encode_gif(&[
        (one_marked_cell(0, 0), vec![0, 0, 0, 77, 77, 77], 1),
        (one_marked_cell(0, 0), vec![0, 0, 0, 77, 0, 77], 1),
    ]);
    let anim = read_animation(&data).unwrap();
    assert_eq!(anim.frames.len(), 2);
    assert_eq!(anim.grayscale, false);
}

#[test]
fn test_read_animation_malformed_data() {
    let garbage = vec![1, 2, 3, 4, 5];
    match read_animation(&garbage) {
        Err(GifError::Decode(_)) => {},
        _ => panic!("malformed data must be a decode error"),
    }
}

#[test]
fn test_read_animation_wrong_size() {
    // a 4x4 GIF does not hold one full pixel grid
    let mut data = Vec::new();
    {
        let mut encoder = gif::Encoder::new(&mut data, 4, 4, &[]).unwrap();
        let frame = gif::Frame::from_palette_pixels(4, 4, vec![0u8; 16], vec![0, 0, 0], None);
        encoder.write_frame(&frame).unwrap();
    }
    match read_animation(&data) {
        Err(GifError::Decode(_)) => {},
        _ => panic!("a wrongly sized GIF must be a decode error"),
    }
}

#[test]
fn test_read_frame() {
    let mut buffer = vec![0u8; 4 * HEIGHT * WIDTH];
    // pixel (0, 1) gets the channels (9, 8, 7, 6)
    buffer[4] = 9;
    buffer[5] = 8;
    buffer[6] = 7;
    buffer[7] = 6;
    let frame = read_frame(&buffer, 33);
    assert_eq!(frame.delay, 33);
    assert_eq!(frame.pixels[0][1], Pixel { r: 9, g: 8, b: 7, a: 6 });
    assert_eq!(frame.pixels[0][0], Pixel { r: 0, g: 0, b: 0, a: 0 });
    assert_eq!(frame.pixels[7][27], Pixel { r: 0, g: 0, b: 0, a: 0 });
}

#[test]
fn test_frame_is_grayscale() {
    // a grayscale frame
    let frame = Frame {
        pixels: vec![vec![Pixel { r: 128, g: 128, b: 128, a: 255 }; WIDTH]; HEIGHT],
        delay: 100,
    };
    assert_eq!(frame_is_grayscale(&frame), true);

    // a colorful frame
    let frame = Frame {
        pixels: vec![vec![Pixel { r: 128, g: 128, b: 64, a: 255 }; WIDTH]; HEIGHT],
        delay: 100,
    };
    assert_eq!(frame_is_grayscale(&frame), false);
}

#[test]
fn test_frame_with_one_colorful_pixel_is_not_grayscale() {
    let mut pixels = vec![vec![Pixel { r: 50, g: 50, b: 50, a: 255 }; WIDTH]; HEIGHT];
    pixels[5][20] = Pixel { r: 50, g: 51, b: 50, a: 255 };
    let frame = Frame { pixels, delay: 0 };
    assert_eq!(frame_is_grayscale(&frame), false);
}

#[test]
fn test_pixel_is_greyscale() {
    // a grayscale pixel
    let pixel = Pixel { r: 128, g: 128, b: 128, a: 255 };
    assert_eq!(pixel_is_grayscale(&pixel), true);

    // a colorful pixel
    let pixel = Pixel { r: 128, g: 128, b: 64, a: 255 };
    assert_eq!(pixel_is_grayscale(&pixel), false);
}

#[test]
fn test_pixel_is_black() {
    // a black pixel
    let pixel = Pixel { r: 0, g: 0, b: 0, a: 255 };
    assert_eq!(pixel_is_black(&pixel), true);

    // a non-black pixel
    let pixel = Pixel { r: 128, g: 128, b: 128, a: 255 };
    assert_eq!(pixel_is_black(&pixel), false);
}

#[test]
fn test_display_pixel() {
    // formatting a pixel
    let pixel = Pixel { r: 128, g: 128, b: 128, a: 255 };
    let expected = "Pixel: R:128, G:128, B:128, A:255";
    assert_eq!(pixel.describe(), expected);
}
