use vstd::prelude::*;

verus! {

/// Frames are compared at this width, in pixels.
pub const COMPARE_WIDTH: u32 = 160;

/// Frames are compared at this height, in pixels.
pub const COMPARE_HEIGHT: u32 = 120;

/// A decoded image in 8-bit grey levels, one byte per pixel, row by row.
pub struct GrayImage {
    pub width: u32,
    pub height: u32,
    pub pixels: Vec<u8>,
}

/// What `image::load_from_memory` followed by `DynamicImage::grayscale`
/// and `DynamicImage::to_luma8` makes of `data`: `None` when the bytes do not
/// decode, otherwise the width, the height and the grey pixels of the
/// decoded image. It depends on the bytes alone.
pub uninterp spec fn decoded_gray(data: Seq<u8>) -> Option<(u32, u32, Seq<u8>)>;

/// What `image::imageops::resize` with nearest-neighbour sampling makes of
/// a grey image of `width` by `height` pixels `pixels`, at `new_width` by
/// `new_height`: its pixels, row by row.
pub uninterp spec fn resized_gray(width: u32, height: u32, pixels: Seq<u8>, new_width: u32, new_height: u32) -> Seq<u8>;

/// `image::load_from_memory`, then `DynamicImage::grayscale`, held as 8-bit
/// grey by `DynamicImage::to_luma8`, and the buffer taken apart into width,
/// height and pixels: the decoded image in grey,
/// `None` where the bytes do not decode. The result is named by
/// `decoded_gray`; the buffer holds at least one byte per pixel.
#[verifier::external_body]
fn decode_gray(data: &[u8]) -> (r: Option<GrayImage>)
    ensures
        match (r, decoded_gray(data@)) {
            (Some(g), Some((w, h, px))) => g.width == w && g.height == h && g.pixels@ == px,
            (None, None) => true,
            _ => false,
        },
        r is Some ==> r.unwrap().pixels@.len() >= r.unwrap().width * r.unwrap().height,
{
    match image::load_from_memory(data) {
        Ok(img) => {
            let g = img.grayscale().to_luma8();
            Some(GrayImage { width: g.width(), height: g.height(), pixels: g.into_raw() })
        },
        Err(_) => None,
    }
}

/// `image::imageops::resize` with nearest-neighbour sampling of a grey image
/// (rebuilt with `ImageBuffer::from_raw`, which accepts a buffer of at least
/// one byte per pixel), then `ImageBuffer::into_raw`. The pixels are named by
/// `resized_gray`; there is one byte per pixel of the new size.
#[verifier::external_body]
fn resize_gray(img: GrayImage, new_width: u32, new_height: u32) -> (r: Vec<u8>)
    requires
        img.pixels@.len() >= img.width * img.height,
        new_width * new_height <= u32::MAX,
    ensures
        r@ == resized_gray(img.width, img.height, img.pixels@, new_width, new_height),
        r@.len() == new_width * new_height,
{
    let GrayImage { width, height, pixels } = img;
    match image::ImageBuffer::<image::Luma<u8>, Vec<u8>>::from_raw(width, height, pixels) {
        Some(buf) => image::imageops::resize(&buf, new_width, new_height, image::imageops::FilterType::Nearest).into_raw(),
        None => Vec::new(),
    }
}

/// The number of bytes of a frame as it is compared: `COMPARE_WIDTH` by
/// `COMPARE_HEIGHT` grey pixels of one byte.
pub open spec fn compared_len() -> nat {
    (COMPARE_WIDTH * COMPARE_HEIGHT) as nat
}

/// The frame that `data` reduces to: decoded, in grey, resized to the
/// comparison size; `None` when the bytes do not decode.
pub open spec fn reduced_frame(data: Seq<u8>) -> Option<Seq<u8>> {
    match decoded_gray(data) {
        Some((w, h, px)) => Some(resized_gray(w, h, px, COMPARE_WIDTH, COMPARE_HEIGHT)),
        None => None,
    }
}

/// Decodes a JPEG (or other image) frame and reduces it to grey at the
/// comparison size; `None` when the bytes do not decode.
pub fn process_frame(data: &[u8]) -> (r: Option<Vec<u8>>)
    ensures
        match (r, reduced_frame(data@)) {
            (Some(v), Some(f)) => v@ == f,
            (None, None) => true,
            _ => false,
        },
        r is Some ==> r.unwrap()@.len() == compared_len(),
{
    let img = match decode_gray(data) {
        Some(i) => i,
        None => {
            return None;
        },
    };
    Some(resize_gray(img, COMPARE_WIDTH, COMPARE_HEIGHT))
}

/// How far apart two grey levels are.
pub open spec fn byte_distance(a: u8, b: u8) -> int {
    if a >= b { a - b } else { b - a }
}

/// Among the first `n` pixels, how many differ by more than `threshold`.
pub open spec fn changed_upto(prev: Seq<u8>, cur: Seq<u8>, threshold: u8, n: int) -> nat
    decreases n,
{
    if n <= 0 {
        0
    } else {
        changed_upto(prev, cur, threshold, n - 1) + if byte_distance(prev[n - 1], cur[n - 1]) > threshold {
            1nat
        } else {
            0nat
        }
    }
}

/// How many pixels two grey frames have in common whose levels differ by
/// more than `threshold` (pixels past the shorter frame do not count).
pub open spec fn changed_pixels(prev: Seq<u8>, cur: Seq<u8>, threshold: u8) -> nat {
    changed_upto(prev, cur, threshold, if prev.len() <= cur.len() { prev.len() as int } else { cur.len() as int })
}

proof fn lemma_changed_upto_le(prev: Seq<u8>, cur: Seq<u8>, threshold: u8, n: int)
    requires
        n >= 0,
    ensures
        changed_upto(prev, cur, threshold, n) <= n,
    decreases n,
{
    if n > 0 {
        lemma_changed_upto_le(prev, cur, threshold, n - 1);
    }
}

/// The number of changed pixels between two frames, as a `u32` (the
/// count modulo 2^32).
pub fn count_changed(prev: &Vec<u8>, cur: &Vec<u8>, threshold: u8) -> (r: u32)
    ensures
        r == changed_pixels(prev@, cur@, threshold) as u32,
{
    let n = if prev.len() <= cur.len() { prev.len() } else { cur.len() };
    let mut count: usize = 0;
    let mut i: usize = 0;
    while i < n
        invariant
            n <= prev.len(),
            n <= cur.len(),
            n == (if prev@.len() <= cur@.len() { prev@.len() } else { cur@.len() }),
            i <= n,
            count == changed_upto(prev@, cur@, threshold, i as int),
        decreases n - i,
    {
        proof {
            lemma_changed_upto_le(prev@, cur@, threshold, i as int);
        }
        let a = prev[i];
        let b = cur[i];
        let d = if a >= b { a - b } else { b - a };
        if d > threshold {
            count = count + 1;
        }
        i = i + 1;
    }
    count as u32
}

/// The result of comparing a frame with the previous one.
pub struct FrameAnalysis {
    /// The frame, reduced for comparison; it is the one the next frame is compared with.
    pub gray: Vec<u8>,
    /// How many pixels changed.
    pub changed: u32,
    /// Whether that is motion.
    pub detected: bool,
}

/// Motion is seen when there was a frame to compare with and at least
/// `min_pixels` pixels changed.
pub open spec fn spec_detected(had_prev: bool, changed: u32, min_pixels: u32) -> bool {
    had_prev && changed >= min_pixels
}

/// Compares a reduced frame with the previous one, if any.
pub fn compare_frames(prev: Option<Vec<u8>>, gray: Vec<u8>, threshold: u8, min_pixels: u32) -> (r: FrameAnalysis)
    ensures
        r.gray@ == gray@,
        r.changed == match prev {
            Some(p) => changed_pixels(p@, gray@, threshold) as u32,
            None => 0,
        },
        r.detected == spec_detected(prev is Some, r.changed, min_pixels),
{
    let had_prev = prev.is_some();
    let changed = match &prev {
        Some(p) => count_changed(p, &gray, threshold),
        None => 0,
    };
    let detected = had_prev && changed >= min_pixels;
    FrameAnalysis { gray, changed, detected }
}

/// Decodes and reduces a frame, then compares it with the previous one;
/// `None` when the frame does not decode.
pub fn analyze_frame(data: &[u8], prev: Option<Vec<u8>>, threshold: u8, min_pixels: u32) -> (r: Option<FrameAnalysis>)
    ensures
        match (r, reduced_frame(data@)) {
            (Some(a), Some(f)) => a.gray@ == f,
            (None, None) => true,
            _ => false,
        },
        r is Some ==> {
            let a = r.unwrap();
            &&& a.gray@.len() == compared_len()
            &&& a.changed == match prev {
                Some(p) => changed_pixels(p@, a.gray@, threshold) as u32,
                None => 0,
            }
            &&& a.detected == spec_detected(prev is Some, a.changed, min_pixels)
        },
{
    let gray = process_frame(data)?;
    Some(compare_frames(prev, gray, threshold, min_pixels))
}

} // verus!
