use vstd::prelude::*;

use crate::bitmap::{BitmapModel, NormalizedBitmap};
use crate::messages::{CompressedImage, RawImage};
use vstd::arithmetic::div_mod::{
    lemma_add_mod_noop, lemma_mod_multiples_basic, lemma_mod_multiples_vanish, lemma_small_mod,
    lemma_sub_mod_noop,
};

verus! {

/// Why a message failed to decode. A decode failure is always recoverable:
/// the preview loop logs it and moves on to the next item.
#[derive(Debug, Clone, Copy, PartialEq, Eq, Structural)]
pub enum DecodeError {
    /// A raw message carried a pixel encoding other than "bgr8".
    UnsupportedEncoding,
    /// A raw message's buffer is too short: it must cover height * step
    /// bytes (the declared rows) and width * height * 3 bytes (the packed
    /// pixels the decoder reads).
    InsufficientBuffer,
    /// A compressed buffer's container format could not be recognized or
    /// decoded.
    CodecFailure,
}

/// Byte `i` of the channel-swapped buffer: within each 3-byte pixel the
/// first and third channel trade places and the middle one stays.
pub open spec fn swapped_byte(s: Seq<u8>, i: int) -> u8
    recommends
        0 <= i < s.len(),
{
    if i % 3 == 0 {
        s[i + 2]
    } else if i % 3 == 2 {
        s[i - 2]
    } else {
        s[i]
    }
}

/// The buffer with the first and third channel of every packed 3-byte pixel
/// exchanged: the BGR-to-RGB transform (and, equally, its inverse).
pub open spec fn swap_channels(s: Seq<u8>) -> Seq<u8>
    recommends
        s.len() % 3 == 0,
{
    Seq::new(s.len(), |i: int| swapped_byte(s, i))
}

/// Exchanging the first and third channel of every pixel is its own inverse:
/// applying the transform twice returns the original buffer.
pub proof fn lemma_swap_channels_involutive(s: Seq<u8>)
    requires
        s.len() % 3 == 0,
    ensures
        swap_channels(swap_channels(s)) == s,
{
    let t = swap_channels(s);
    assert forall|i: int| 0 <= i < s.len() implies swap_channels(t)[i] == s[i] by {
        if i % 3 == 0 {
            lemma_sub_mod_noop(s.len() as int, i, 3);
            if s.len() - i < 3 {
                lemma_small_mod((s.len() - i) as nat, 3);
            }
            assert(i + 2 < s.len());
            lemma_add_mod_noop(i, 2, 3);
            lemma_small_mod(2, 3);
            assert((i + 2) % 3 == 2);
        } else if i % 3 == 2 {
            if i < 2 {
                lemma_small_mod(i as nat, 3);
            }
            lemma_sub_mod_noop(i, 2, 3);
            lemma_small_mod(2, 3);
            assert((i - 2) % 3 == 0);
        }
    }
    assert(swap_channels(swap_channels(s)) =~= s);
}

/// In a packed width-by-height pixel buffer, the swapped buffer's pixel at
/// column `x`, row `y` carries the input pixel's channels with the first and
/// third exchanged and the middle one unchanged.
pub proof fn lemma_swap_channels_pixel(s: Seq<u8>, w: int, h: int, x: int, y: int)
    requires
        s.len() == w * h * 3,
        0 <= x < w,
        0 <= y < h,
    ensures
        swap_channels(s)[3 * (y * w + x)] == s[3 * (y * w + x) + 2],
        swap_channels(s)[3 * (y * w + x) + 1] == s[3 * (y * w + x) + 1],
        swap_channels(s)[3 * (y * w + x) + 2] == s[3 * (y * w + x)],
{
    let k = y * w + x;
    let p = 3 * k;
    assert(0 <= y * w + x && y * w + x < w * h) by (nonlinear_arith)
        requires
            0 <= x < w,
            0 <= y < h,
    ;
    assert(p + 2 < s.len());
    lemma_mod_multiples_basic(k, 3);
    lemma_mod_multiples_vanish(k, 1, 3);
    lemma_mod_multiples_vanish(k, 2, 3);
    lemma_small_mod(1, 3);
    lemma_small_mod(2, 3);
    assert(p % 3 == 0 && (p + 1) % 3 == 1 && (p + 2) % 3 == 2);
}

/// What the general-purpose image codec yields on a compressed buffer: no
/// value when the container format cannot be recognized or decoded,
/// otherwise the decoded image's width, height, and row-major 8-bit
/// red-green-blue bytes. The outcome depends on the buffer's contents alone.
pub uninterp spec fn codec_decoded(data: Seq<u8>) -> Option<(nat, nat, Seq<u8>)>;

/// Relies on image::ImageReader (with_guessed_format, then decode) and
/// image::DynamicImage::to_rgb8: the container format is sniffed from the
/// buffer's magic bytes, the image is decoded, and the pixels are expanded
/// to one 8-bit red-green-blue triple each, row-major. The codecs are
/// deterministic and this crate registers no format or decoder hooks, so the
/// result is a function of the buffer's contents alone.
#[verifier::external_body]
fn decode_compressed_bytes(data: &Vec<u8>) -> (r: Option<NormalizedBitmap>)
    ensures
        match r {
            Some(b) => b.wf() && codec_decoded(data@) == Some(
                (b.width as nat, b.height as nat, b.data@),
            ),
            None => codec_decoded(data@) is None,
        },
{
    let reader = image::ImageReader::new(std::io::Cursor::new(data.as_slice()));
    let reader = match reader.with_guessed_format() {
        Ok(reader) => reader,
        Err(_) => return None,
    };
    let decoded = match reader.decode() {
        Ok(decoded) => decoded,
        Err(_) => return None,
    };
    let rgb = decoded.to_rgb8();
    let (width, height) = rgb.dimensions();
    Some(NormalizedBitmap { width, height, data: rgb.into_raw() })
}

/// A message shape the pipeline can decode: the capability "can produce a
/// NormalizedBitmap", together with the topic type name the variant binds
/// to when subscribing.
pub trait PreviewImage: Sized {
    /// The topic type name this message shape is subscribed under.
    spec fn type_name_spec() -> Seq<char>;

    /// The decode outcome this message is specified to produce.
    spec fn decoded_spec(&self) -> Result<BitmapModel, DecodeError>;

    /// Decode this message into a normalized bitmap, or report why it
    /// cannot be decoded. Never panics; a malformed message is an error
    /// value, not a fault.
    fn to_image(&self) -> (r: Result<NormalizedBitmap, DecodeError>)
        ensures
            match r {
                Ok(b) => self.decoded_spec() matches Ok(m) && b@ == m && b.wf(),
                Err(e) => self.decoded_spec() matches Err(me) && e == me,
            },
    ;

    /// The topic type name used for subscription binding.
    fn as_str() -> (r: &'static str)
        ensures
            r@ == Self::type_name_spec(),
    ;
}

impl RawImage {
    /// The bytes the decoder reads: the first width * height * 3 bytes of
    /// the buffer, one packed 3-byte pixel per image position.
    pub open spec fn pixel_bytes(self) -> Seq<u8>
        recommends
            self.data@.len() >= self.width * self.height * 3,
    {
        self.data@.take(self.width * self.height * 3)
    }

    /// Channel `c` of the packed input pixel at column `x`, row `y`.
    pub open spec fn input_channel(self, x: int, y: int, c: int) -> u8
        recommends
            0 <= x < self.width,
            0 <= y < self.height,
            0 <= c < 3,
            self.data@.len() >= self.width * self.height * 3,
    {
        self.data@[3 * (y * self.width + x) + c]
    }

    /// The decode outcome for a raw message: only the "bgr8" encoding is
    /// supported, the buffer must be long enough for height * step (the
    /// message's own invariant) and for the width * height packed pixels the
    /// decoder reads, and the result is those pixels with their first and
    /// third channel exchanged.
    pub open spec fn raw_decoded(self) -> Result<BitmapModel, DecodeError> {
        if self.encoding@ != "bgr8"@ {
            Err(DecodeError::UnsupportedEncoding)
        } else if self.data@.len() < self.height * self.step || self.data@.len() < self.width
            * self.height * 3 {
            Err(DecodeError::InsufficientBuffer)
        } else {
            Ok(
                BitmapModel {
                    width: self.width as nat,
                    height: self.height as nat,
                    data: swap_channels(self.pixel_bytes()),
                },
            )
        }
    }
}

/// A raw "bgr8" message that decodes successfully yields a bitmap whose
/// pixel at column `x`, row `y` carries the input pixel's channels with the
/// first and third (blue and red) swapped and the middle one unchanged.
pub proof fn lemma_raw_decode_swaps_pixel(msg: RawImage, x: int, y: int)
    requires
        msg.raw_decoded() is Ok,
        0 <= x < msg.width,
        0 <= y < msg.height,
    ensures
        ({
            let b = msg.raw_decoded().unwrap();
            &&& b.channel(x, y, 0) == msg.input_channel(x, y, 2)
            &&& b.channel(x, y, 1) == msg.input_channel(x, y, 1)
            &&& b.channel(x, y, 2) == msg.input_channel(x, y, 0)
        }),
{
    let w = msg.width as int;
    let h = msg.height as int;
    let s = msg.pixel_bytes();
    assert(s.len() == w * h * 3);
    lemma_swap_channels_pixel(s, w, h, x, y);
    assert(0 <= y * w + x && y * w + x < w * h) by (nonlinear_arith)
        requires
            0 <= x < w,
            0 <= y < h,
    ;
    let p = 3 * (y * w + x);
    assert(s[p] == msg.data@[p] && s[p + 1] == msg.data@[p + 1] && s[p + 2] == msg.data@[p + 2]);
}

impl PreviewImage for RawImage {
    open spec fn type_name_spec() -> Seq<char> {
        "Image"@
    }

    open spec fn decoded_spec(&self) -> Result<BitmapModel, DecodeError> {
        self.raw_decoded()
    }

    fn to_image(&self) -> (r: Result<NormalizedBitmap, DecodeError>) {
        let is_bgr8 = self.encoding == "bgr8".to_owned();
        if !is_bgr8 {
            return Err(DecodeError::UnsupportedEncoding);
        }
        proof {
            assert(0 <= (self.width as int) * (self.height as int) && (self.width as int) * (
            self.height as int) < 0x1_0000_0000_0000_0000) by (nonlinear_arith)
                requires
                    0 <= self.width < 0x1_0000_0000,
                    0 <= self.height < 0x1_0000_0000,
            ;
            assert(0 <= (self.height as int) * (self.step as int) && (self.height as int) * (
            self.step as int) < 0x1_0000_0000_0000_0000) by (nonlinear_arith)
                requires
                    0 <= self.height < 0x1_0000_0000,
                    0 <= self.step < 0x1_0000_0000,
            ;
        }
        let row_bytes: u128 = (self.height as u128) * (self.step as u128);
        let need: u128 = (self.width as u128) * (self.height as u128) * 3;
        if (self.data.len() as u128) < row_bytes || (self.data.len() as u128) < need {
            return Err(DecodeError::InsufficientBuffer);
        }
        let pixels: usize = (self.width as usize) * (self.height as usize);
        let mut out: Vec<u8> = Vec::new();
        let mut p: usize = 0;
        while p < pixels
            invariant
                p <= pixels,
                out@.len() == 3 * p,
                pixels == self.width * self.height,
                3 * pixels <= self.data@.len(),
                self.data@.len() <= usize::MAX,
                forall|j: int| 0 <= j < out@.len() ==> out@[j] == swapped_byte(self.data@, j),
            decreases pixels - p,
        {
            let base: usize = 3 * p;
            proof {
                lemma_mod_multiples_basic(p as int, 3);
                lemma_mod_multiples_vanish(p as int, 1, 3);
                lemma_mod_multiples_vanish(p as int, 2, 3);
                lemma_small_mod(1, 3);
                lemma_small_mod(2, 3);
            }
            out.push(self.data[base + 2]);
            out.push(self.data[base + 1]);
            out.push(self.data[base]);
            p = p + 1;
        }
        let bmp = NormalizedBitmap { width: self.width, height: self.height, data: out };
        proof {
            let t = self.pixel_bytes();
            assert(t.len() == 3 * pixels);
            assert forall|j: int| 0 <= j < bmp.data@.len() implies bmp.data@[j] == swap_channels(
                t,
            )[j] by {
                if j % 3 == 0 {
                    assert(j + 2 < t.len());
                    assert(t[j + 2] == self.data@[j + 2]);
                } else if j % 3 == 2 {
                    assert(t[j - 2] == self.data@[j - 2]);
                } else {
                    assert(t[j] == self.data@[j]);
                }
            }
            assert(bmp.data@ =~= swap_channels(t));
            assert(bmp@ =~= self.raw_decoded().unwrap());
        }
        Ok(bmp)
    }

    fn as_str() -> (r: &'static str) {
        "Image"
    }
}

impl CompressedImage {
    /// The decode outcome for a compressed message, in terms of what the
    /// codec yields on its buffer.
    pub open spec fn compressed_decoded(self) -> Result<BitmapModel, DecodeError> {
        match codec_decoded(self.data@) {
            Some(t) => Ok(BitmapModel { width: t.0, height: t.1, data: t.2 }),
            None => Err(DecodeError::CodecFailure),
        }
    }
}

impl PreviewImage for CompressedImage {
    open spec fn type_name_spec() -> Seq<char> {
        "CompressedImage"@
    }

    open spec fn decoded_spec(&self) -> Result<BitmapModel, DecodeError> {
        self.compressed_decoded()
    }

    fn to_image(&self) -> (r: Result<NormalizedBitmap, DecodeError>) {
        match decode_compressed_bytes(&self.data) {
            Some(b) => {
                proof {
                    assert(b@ =~= self.compressed_decoded().unwrap());
                }
                Ok(b)
            },
            None => Err(DecodeError::CodecFailure),
        }
    }

    fn as_str() -> (r: &'static str) {
        "CompressedImage"
    }
}

} // verus!
