//! Media formats and the ports that carry them.
//!
//! Everything here is passive data plus the arithmetic that fills it in:
//! four-character codes, alignment of frame dimensions, and the buffer
//! figures a port is configured with.

use vstd::arithmetic::div_mod::{lemma_fundamental_div_mod, lemma_mod_multiples_basic};
use vstd::prelude::*;

verus! {

/// Index of the preview output on the capture component.
pub const CAMERA_PREVIEW_PORT: isize = 0;

/// Index of the video output on the capture component.
pub const CAMERA_VIDEO_PORT: isize = 1;

/// Index of the still output on the capture component.
pub const CAMERA_CAPTURE_PORT: isize = 2;

/// Encoding that keeps frames inside the tunnel, uncompressed and unseen by
/// the application.
pub const ENCODING_OPAQUE: u32 = 0;

/// Encoding of the encoder's output: the code of `JPEG`.
pub const ENCODING_JPEG: u32 = 0x4745_504A;

/// Committed widths are multiples of this many pixels.
pub const WIDTH_ALIGNMENT: u32 = 32;

/// Committed heights are multiples of this many pixels.
pub const HEIGHT_ALIGNMENT: u32 = 16;

/// Fewest buffers the still port may run with.
pub const MIN_STILL_BUFFERS: u32 = 3;

/// Largest width or height that can be requested: the crop rectangle holds
/// the request in a signed 32-bit field.
pub const MAX_DIMENSION: u32 = 0x7FFF_FFFF;

/// The four-character code of `a`, `b`, `c`, `d`: `a` in the lowest byte,
/// `d` in the highest.
pub open spec fn fourcc_spec(a: char, b: char, c: char, d: char) -> u32 {
    (a as u32) | ((b as u32) << 8) | ((c as u32) << 16) | ((d as u32) << 24)
}

/// Packs four characters into a 32-bit code, first character lowest.
pub fn fourcc(a: char, b: char, c: char, d: char) -> (code: u32)
    ensures
        code == fourcc_spec(a, b, c, d),
{
    let a: u32 = a as u32;
    let b: u32 = b as u32;
    let c: u32 = c as u32;
    let d: u32 = d as u32;
    a | (b << 8) | (c << 16) | (d << 24)
}

/// For characters that fit in a byte the code is positional: each character
/// is one base-256 digit, so distinct quadruples get distinct codes.
pub proof fn lemma_fourcc_of_bytes(a: char, b: char, c: char, d: char)
    requires
        (a as u32) < 256,
        (b as u32) < 256,
        (c as u32) < 256,
        (d as u32) < 256,
    ensures
        fourcc_spec(a, b, c, d) == (a as u32) + 256 * (b as u32) + 65536 * (c as u32) + 16777216
            * (d as u32),
{
    let x: u32 = a as u32;
    let y: u32 = b as u32;
    let z: u32 = c as u32;
    let w: u32 = d as u32;
    assert((x | (y << 8) | (z << 16) | (w << 24)) == x + 256 * y + 65536 * z + 16777216 * w)
        by (bit_vector)
        requires
            x < 256,
            y < 256,
            z < 256,
            w < 256,
    ;
}

/// Two quadruples of characters that fit in a byte have the same code only
/// if they are the same quadruple.
pub proof fn lemma_fourcc_tells_bytes_apart(
    a: char,
    b: char,
    c: char,
    d: char,
    a2: char,
    b2: char,
    c2: char,
    d2: char,
)
    requires
        (a as u32) < 256 && (b as u32) < 256 && (c as u32) < 256 && (d as u32) < 256,
        (a2 as u32) < 256 && (b2 as u32) < 256 && (c2 as u32) < 256 && (d2 as u32) < 256,
        fourcc_spec(a, b, c, d) == fourcc_spec(a2, b2, c2, d2),
    ensures
        a == a2 && b == b2 && c == c2 && d == d2,
{
    lemma_fourcc_of_bytes(a, b, c, d);
    lemma_fourcc_of_bytes(a2, b2, c2, d2);
}

/// The encoder's output encoding is the code of the letters `J`, `P`, `E`, `G`.
pub proof fn lemma_jpeg_code()
    ensures
        ENCODING_JPEG == fourcc_spec('J', 'P', 'E', 'G'),
{
    assert((0x4Au32 | (0x50u32 << 8) | (0x45u32 << 16) | (0x47u32 << 24)) == 0x4745_504Au32)
        by (bit_vector);
}

/// `value` rounded up to a multiple of `boundary`.
pub open spec fn round_up(value: int, boundary: int) -> int {
    if value % boundary == 0 {
        value
    } else {
        value + boundary - value % boundary
    }
}

/// `round_up(value, boundary)` is the least multiple of `boundary` that is
/// not below `value`.
pub proof fn lemma_round_up_is_least_multiple(value: int, boundary: int, multiple: int)
    requires
        boundary > 0,
    ensures
        round_up(value, boundary) % boundary == 0,
        value <= round_up(value, boundary) < value + boundary,
        multiple % boundary == 0 && multiple >= value ==> multiple >= round_up(value, boundary),
{
    let r = round_up(value, boundary);
    lemma_fundamental_div_mod(value, boundary);
    lemma_mod_multiples_basic(value / boundary, boundary);
    lemma_mod_multiples_basic(value / boundary + 1, boundary);
    assert(r == (value / boundary) * boundary || r == (value / boundary + 1) * boundary)
        by (nonlinear_arith)
        requires
            value == boundary * (value / boundary) + value % boundary,
            r == if value % boundary == 0 {
                value
            } else {
                value + boundary - value % boundary
            },
    ;
    if multiple % boundary == 0 && multiple >= value && multiple < r {
        lemma_fundamental_div_mod(multiple, boundary);
        lemma_fundamental_div_mod(r, boundary);
        let qm = multiple / boundary;
        let qr = r / boundary;
        assert(false) by (nonlinear_arith)
            requires
                boundary > 0,
                multiple == boundary * qm,
                r == boundary * qr,
                multiple < r,
                r - multiple < boundary,
        ;
    }
}

/// Rounds `value` up to a multiple of `boundary`. There is no answer when
/// `boundary` is zero or the rounded value does not fit in 32 bits.
pub fn align_up(value: u32, boundary: u32) -> (aligned: Option<u32>)
    ensures
        aligned == if boundary > 0 && round_up(value as int, boundary as int) <= u32::MAX {
            Some(round_up(value as int, boundary as int) as u32)
        } else {
            None
        },
{
    if boundary == 0 {
        return None;
    }
    let rest: u32 = value % boundary;
    if rest == 0 {
        Some(value)
    } else {
        value.checked_add(boundary - rest)
    }
}

/// A rectangle inside a frame.
#[derive(Clone, Copy, Debug, PartialEq, Eq, Structural)]
pub struct Rect {
    pub x: i32,
    pub y: i32,
    pub width: i32,
    pub height: i32,
}

/// A ratio of two integers.
#[derive(Clone, Copy, Debug, PartialEq, Eq, Structural)]
pub struct Rational {
    pub num: i32,
    pub den: i32,
}

/// What a port carries: an encoding, the frame size, the visible part of the
/// frame and the frame rate.
#[derive(Clone, Copy, Debug, PartialEq, Eq, Structural)]
pub struct VideoFormat {
    pub encoding: u32,
    pub width: u32,
    pub height: u32,
    pub crop: Rect,
    pub frame_rate: Rational,
}

/// A component's endpoint: its format and its buffer figures.
#[derive(Clone, Copy, Debug, PartialEq, Eq, Structural)]
pub struct Port {
    pub format: VideoFormat,
    pub buffer_num: u32,
    pub buffer_num_min: u32,
    pub buffer_num_recommended: u32,
    pub buffer_size: u32,
    pub buffer_size_min: u32,
    pub buffer_size_recommended: u32,
}

/// A still can be requested at this size: both sides positive and small
/// enough for the crop rectangle.
pub open spec fn valid_dimensions(width: u32, height: u32) -> bool {
    0 < width <= MAX_DIMENSION && 0 < height <= MAX_DIMENSION
}

/// The format committed on the still port for a `width` by `height` request:
/// opaque frames, each side rounded up to its alignment, the crop equal to
/// the request, and a rate of 0/1, which stands for "on demand".
pub open spec fn still_format_spec(width: u32, height: u32) -> VideoFormat {
    VideoFormat {
        encoding: ENCODING_OPAQUE,
        width: round_up(width as int, WIDTH_ALIGNMENT as int) as u32,
        height: round_up(height as int, HEIGHT_ALIGNMENT as int) as u32,
        crop: Rect { x: 0, y: 0, width: width as i32, height: height as i32 },
        frame_rate: Rational { num: 0, den: 1 },
    }
}

/// For a valid request the aligned sides fit their fields, so the format
/// above holds the true rounded values.
pub proof fn lemma_still_format_fits(width: u32, height: u32)
    requires
        valid_dimensions(width, height),
    ensures
        still_format_spec(width, height).width == round_up(width as int, 32),
        still_format_spec(width, height).height == round_up(height as int, 16),
        still_format_spec(width, height).crop.width == width,
        still_format_spec(width, height).crop.height == height,
{
    lemma_round_up_is_least_multiple(width as int, 32, 0);
    lemma_round_up_is_least_multiple(height as int, 16, 0);
}

pub open spec fn zero_format() -> VideoFormat {
    VideoFormat {
        encoding: 0,
        width: 0,
        height: 0,
        crop: Rect { x: 0, y: 0, width: 0, height: 0 },
        frame_rate: Rational { num: 0, den: 0 },
    }
}

pub open spec fn zero_port() -> Port {
    Port {
        format: zero_format(),
        buffer_num: 0,
        buffer_num_min: 0,
        buffer_num_recommended: 0,
        buffer_size: 0,
        buffer_size_min: 0,
        buffer_size_recommended: 0,
    }
}

pub open spec fn max_u32(a: u32, b: u32) -> u32 {
    if a < b {
        b
    } else {
        a
    }
}

/// Whether a request for a `width` by `height` still can be served.
pub fn dimensions_valid(width: u32, height: u32) -> (valid: bool)
    ensures
        valid == valid_dimensions(width, height),
{
    0 < width && width <= MAX_DIMENSION && 0 < height && height <= MAX_DIMENSION
}

/// The format to commit on the still port, or nothing for a size that
/// cannot be requested.
pub fn still_format(width: u32, height: u32) -> (format: Option<VideoFormat>)
    ensures
        format == if valid_dimensions(width, height) {
            Some(still_format_spec(width, height))
        } else {
            None
        },
        format matches Some(f) ==> {
            &&& f.width == round_up(width as int, 32)
            &&& f.height == round_up(height as int, 16)
            &&& f.crop == (Rect { x: 0, y: 0, width: width as i32, height: height as i32 })
            &&& f.crop.width == width
            &&& f.crop.height == height
        },
{
    if !dimensions_valid(width, height) {
        return None;
    }
    proof {
        lemma_still_format_fits(width, height);
    }
    let aligned_width = align_up(width, WIDTH_ALIGNMENT);
    let aligned_height = align_up(height, HEIGHT_ALIGNMENT);
    match (aligned_width, aligned_height) {
        (Some(w), Some(h)) => Some(
            VideoFormat {
                encoding: ENCODING_OPAQUE,
                width: w,
                height: h,
                crop: Rect { x: 0, y: 0, width: width as i32, height: height as i32 },
                frame_rate: Rational { num: 0, den: 1 },
            },
        ),
        _ => None,
    }
}

impl VideoFormat {
    /// A format with nothing set.
    pub fn empty() -> (format: VideoFormat)
        ensures
            format == zero_format(),
    {
        VideoFormat {
            encoding: 0,
            width: 0,
            height: 0,
            crop: Rect { x: 0, y: 0, width: 0, height: 0 },
            frame_rate: Rational { num: 0, den: 0 },
        }
    }

    /// This format under another encoding: size, crop and rate are kept.
    pub open spec fn with_encoding_spec(self, encoding: u32) -> VideoFormat {
        VideoFormat { encoding, ..self }
    }

    /// Copies the format and replaces only its encoding.
    pub fn with_encoding(&self, encoding: u32) -> (format: VideoFormat)
        ensures
            format == self.with_encoding_spec(encoding),
    {
        VideoFormat {
            encoding,
            width: self.width,
            height: self.height,
            crop: self.crop,
            frame_rate: self.frame_rate,
        }
    }
}

impl Port {
    /// A port about which nothing is known yet.
    pub fn empty() -> (port: Port)
        ensures
            port == zero_port(),
    {
        Port {
            format: VideoFormat::empty(),
            buffer_num: 0,
            buffer_num_min: 0,
            buffer_num_recommended: 0,
            buffer_size: 0,
            buffer_size_min: 0,
            buffer_size_recommended: 0,
        }
    }

    /// The port runs with at least its minimum count and size of buffers.
    pub open spec fn meets_minimums(self) -> bool {
        self.buffer_num >= self.buffer_num_min && self.buffer_size >= self.buffer_size_min
    }

    /// The port with the recommended buffer count and size, each raised to
    /// its minimum where the recommendation is below it.
    pub open spec fn with_recommended_buffers(self) -> Port {
        Port {
            buffer_num: max_u32(self.buffer_num_recommended, self.buffer_num_min),
            buffer_size: max_u32(self.buffer_size_recommended, self.buffer_size_min),
            ..self
        }
    }

    /// The port with at least `least` buffers.
    pub open spec fn with_buffer_num_at_least(self, least: u32) -> Port {
        Port { buffer_num: max_u32(self.buffer_num, least), ..self }
    }

    /// Takes the recommended buffer count and size, raising each to its
    /// minimum. Afterwards the port meets its minimums.
    pub fn use_recommended_buffers(&mut self)
        ensures
            *final(self) == old(self).with_recommended_buffers(),
            final(self).meets_minimums(),
    {
        self.buffer_size = self.buffer_size_recommended;
        if self.buffer_size < self.buffer_size_min {
            self.buffer_size = self.buffer_size_min;
        }
        self.buffer_num = self.buffer_num_recommended;
        if self.buffer_num < self.buffer_num_min {
            self.buffer_num = self.buffer_num_min;
        }
    }

    /// Raises the buffer count to `least` where it is below it.
    pub fn ensure_buffer_num(&mut self, least: u32)
        ensures
            *final(self) == old(self).with_buffer_num_at_least(least),
            final(self).buffer_num >= least,
            final(self).buffer_num >= old(self).buffer_num,
    {
        if self.buffer_num < least {
            self.buffer_num = least;
        }
    }

    /// Whether the count and the size of buffers reach their minimums.
    pub fn has_minimums(&self) -> (met: bool)
        ensures
            met == self.meets_minimums(),
    {
        self.buffer_num >= self.buffer_num_min && self.buffer_size >= self.buffer_size_min
    }
}

} // verus!
