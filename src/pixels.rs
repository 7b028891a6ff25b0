use vstd::prelude::*;

verus! {

/// The pixel layouts that a PNG decoder can hand out.
#[derive(Clone, Copy, Debug, PartialEq, Eq, Structural)]
pub enum ColorModel {
    Grayscale,
    Rgb,
    Indexed,
    GrayscaleAlpha,
    Rgba,
}

/// Samples per pixel in a layout.
pub open spec fn channels(c: ColorModel) -> nat {
    match c {
        ColorModel::Grayscale => 1,
        ColorModel::Rgb => 3,
        ColorModel::Indexed => 1,
        ColorModel::GrayscaleAlpha => 2,
        ColorModel::Rgba => 4,
    }
}

/// A decoded frame as the PNG decoder gives it: layout, bits per sample,
/// size, and the sample bytes row by row.
pub struct Frame {
    pub color: ColorModel,
    pub bit_depth: u8,
    pub width: u32,
    pub height: u32,
    pub samples: Vec<u8>,
}

pub ghost struct FrameView {
    pub color: ColorModel,
    pub bit_depth: u8,
    pub width: u32,
    pub height: u32,
    pub samples: Seq<u8>,
}

impl View for Frame {
    type V = FrameView;

    open spec fn view(&self) -> FrameView {
        FrameView {
            color: self.color,
            bit_depth: self.bit_depth,
            width: self.width,
            height: self.height,
            samples: self.samples@,
        }
    }
}

/// The frame that the PNG decoder reads from a file's bytes, or `None` where
/// it rejects them.
pub uninterp spec fn png_frame_of(bytes: Seq<u8>) -> Option<FrameView>;

/// Relies on png's `Decoder::read_info` and `Reader::next_frame` (no
/// transformations): the outcome depends on the bytes alone.
#[verifier::external_body]
fn png_decode(bytes: &[u8]) -> (r: Result<Frame, String>)
    ensures
        r is Ok <==> png_frame_of(bytes@) is Some,
        r is Ok ==> png_frame_of(bytes@) == Some(r->Ok_0@),
{
    let decoder = png::Decoder::new(std::io::Cursor::new(bytes));
    let mut reader = decoder.read_info().map_err(|e| e.to_string())?;
    let mut samples = vec![0; reader.output_buffer_size().unwrap_or(0)];
    let info = reader.next_frame(&mut samples).map_err(|e| e.to_string())?;
    let color = match info.color_type {
        png::ColorType::Grayscale => ColorModel::Grayscale,
        png::ColorType::Rgb => ColorModel::Rgb,
        png::ColorType::Indexed => ColorModel::Indexed,
        png::ColorType::GrayscaleAlpha => ColorModel::GrayscaleAlpha,
        png::ColorType::Rgba => ColorModel::Rgba,
    };
    Ok(Frame { color, bit_depth: info.bit_depth as u8, width: info.width, height: info.height, samples })
}

/// Why a file could not be turned into RGB pixels.
#[derive(Clone, Debug, PartialEq, Eq)]
pub enum DecodeError {
    /// The decoder rejected the bytes; its message.
    Malformed(String),
    /// A palette image: its layout has no RGB reading here.
    UnsupportedColor(ColorModel),
    /// Samples of other than eight bits.
    UnsupportedDepth(u8),
    /// Fewer samples than the frame's size asks for.
    Truncated,
    /// More RGB bytes than this machine can address.
    TooLarge,
}

impl DecodeError {
    pub fn describe(&self) -> String {
        match self {
            DecodeError::Malformed(m) => m.clone(),
            DecodeError::UnsupportedColor(_) => "unsupported color type: indexed".to_string(),
            DecodeError::UnsupportedDepth(_) => "unsupported bit depth".to_string(),
            DecodeError::Truncated => "frame holds fewer samples than its size".to_string(),
            DecodeError::TooLarge => "image too large for this machine".to_string(),
        }
    }
}

/// RGB pixels, one byte per channel, row by row.
pub struct PixelBuffer {
    pub width: u32,
    pub height: u32,
    pub rgb: Vec<u8>,
}

impl PixelBuffer {
    pub open spec fn wf(&self) -> bool {
        self.rgb@.len() == self.width * self.height * 3
    }
}

/// Where the `i`-th RGB byte is read from among a frame's samples: an alpha
/// sample is passed over, a gray sample serves all three channels.
pub open spec fn source_index(c: ColorModel, i: int) -> int {
    if channels(c) >= 3 {
        channels(c) * (i / 3) + i % 3
    } else {
        channels(c) * (i / 3)
    }
}

/// The RGB bytes of the first `n` pixels of `samples` in layout `c`.
pub open spec fn rgb_of(c: ColorModel, samples: Seq<u8>, n: nat) -> Seq<u8> {
    Seq::new(3 * n, |i: int| samples[source_index(c, i)])
}

/// What a frame turns into: its RGB pixels, or why it has none.
pub open spec fn frame_rgb(f: FrameView) -> Result<Seq<u8>, DecodeError> {
    if f.color == ColorModel::Indexed {
        Err(DecodeError::UnsupportedColor(f.color))
    } else if f.bit_depth != 8 {
        Err(DecodeError::UnsupportedDepth(f.bit_depth))
    } else if f.samples.len() < f.width * f.height * channels(f.color) {
        Err(DecodeError::Truncated)
    } else if f.width * f.height * 3 > usize::MAX {
        Err(DecodeError::TooLarge)
    } else {
        Ok(rgb_of(f.color, f.samples, (f.width * f.height) as nat))
    }
}

fn channel_count(c: ColorModel) -> (r: usize)
    ensures
        r == channels(c),
{
    match c {
        ColorModel::Grayscale => 1,
        ColorModel::Rgb => 3,
        ColorModel::Indexed => 1,
        ColorModel::GrayscaleAlpha => 2,
        ColorModel::Rgba => 4,
    }
}

/// Turns a decoded frame into RGB pixels: alpha is dropped, gray is copied
/// into all three channels, a palette or a depth other than eight bits is
/// refused.
pub fn to_rgb(frame: Frame) -> (r: Result<PixelBuffer, DecodeError>)
    ensures
        match (r, frame_rgb(frame@)) {
            (Ok(p), Ok(s)) => p.rgb@ == s && p.width == frame.width && p.height == frame.height
                && p.wf(),
            (Err(e), Err(d)) => e == d,
            _ => false,
        },
{
    if frame.color == ColorModel::Indexed {
        return Err(DecodeError::UnsupportedColor(frame.color));
    }
    if frame.bit_depth != 8 {
        return Err(DecodeError::UnsupportedDepth(frame.bit_depth));
    }
    let len = frame.samples.len();
    let ch = channel_count(frame.color);
    let w = frame.width as usize;
    let h = frame.height as usize;
    let pixels = match w.checked_mul(h) {
        Some(n) => n,
        None => {
            proof {
                assert(frame.width * frame.height * channels(frame.color) >= frame.width * frame.height)
                    by (nonlinear_arith)
                    requires channels(frame.color) >= 1;
            }
            return Err(DecodeError::Truncated);
        }
    };
    let needed = match pixels.checked_mul(ch) {
        Some(n) => n,
        None => return Err(DecodeError::Truncated),
    };
    if len < needed {
        return Err(DecodeError::Truncated);
    }
    let out_len = match pixels.checked_mul(3) {
        Some(n) => n,
        None => return Err(DecodeError::TooLarge),
    };
    let ghost n = pixels as nat;
    let mut rgb: Vec<u8> = Vec::with_capacity(out_len);
    let mut p: usize = 0;
    while p < pixels
        invariant
            p <= pixels,
            pixels == n,
            n == frame.width * frame.height,
            ch == channels(frame.color),
            frame.color != ColorModel::Indexed,
            n * ch <= len,
            len == frame.samples@.len(),
            rgb@.len() == 3 * p,
            forall|i: int| 0 <= i < 3 * p ==> rgb@[i] == frame.samples@[source_index(frame.color, i)],
        decreases pixels - p,
    {
        proof {
            assert(p * ch + ch <= n * ch) by (nonlinear_arith) requires p < n;
        }
        let base = p * ch;
        let r0 = frame.samples[base];
        let (r1, r2) = if ch >= 3 {
            (frame.samples[base + 1], frame.samples[base + 2])
        } else {
            (r0, r0)
        };
        rgb.push(r0);
        rgb.push(r1);
        rgb.push(r2);
        proof {
            assert forall|i: int| 0 <= i < 3 * (p + 1) implies rgb@[i] == frame.samples@[
                source_index(frame.color, i)] by {
                if i >= 3 * p {
                    assert(i / 3 == p as int);
                    assert(i % 3 == i - 3 * p);
                    assert(channels(frame.color) * (i / 3) == base);
                }
            }
        }
        p = p + 1;
    }
    proof {
        assert(rgb@ =~= rgb_of(frame.color, frame.samples@, n));
    }
    Ok(PixelBuffer { width: frame.width, height: frame.height, rgb })
}

/// Reads a PNG file's bytes into RGB pixels.
pub fn decode(bytes: &[u8]) -> (r: Result<PixelBuffer, DecodeError>)
    ensures
        match png_frame_of(bytes@) {
            None => r is Err && r->Err_0 is Malformed,
            Some(f) => match (r, frame_rgb(f)) {
                (Ok(p), Ok(s)) => p.rgb@ == s && p.width == f.width && p.height == f.height
                    && p.wf(),
                (Err(e), Err(d)) => e == d,
                _ => false,
            },
        },
{
    match png_decode(bytes) {
        Ok(frame) => to_rgb(frame),
        Err(m) => Err(DecodeError::Malformed(m)),
    }
}

} // verus!
