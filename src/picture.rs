//! Decoded images laid out for the resize stage: rows of four-byte pixels,
//! each row padded with zero pixels to a multiple of sixteen pixels.

use crate::request::ImageKind;
use image::ImageFormat;
use vstd::arithmetic::div_mod::{lemma_fundamental_div_mod, lemma_fundamental_div_mod_converse};
use vstd::prelude::*;

verus! {

/// image::ImageError, the decoder's error, carried through unread.
#[verifier::external_type_specification]
#[verifier::external_body]
pub struct ExImageError(image::ImageError);

/// `bytes` begin with `signature`.
pub open spec fn starts_with(bytes: Seq<u8>, signature: Seq<u8>) -> bool {
    signature.len() <= bytes.len() && bytes.subrange(0, signature.len() as int) == signature
}

/// The format whose signature `bytes` start with, when it is one a request
/// can name: the PNG signature, `FF D8 FF` for JPEG, or `BM` for BMP.
pub open spec fn signature_kind(bytes: Seq<u8>) -> Option<ImageKind> {
    if starts_with(bytes, seq![0x89u8, 0x50, 0x4e, 0x47, 0x0d, 0x0a, 0x1a, 0x0a]) {
        Some(ImageKind::Png)
    } else if starts_with(bytes, seq![0xffu8, 0xd8, 0xff]) {
        Some(ImageKind::Jpeg)
    } else if starts_with(bytes, seq![0x42u8, 0x4d]) {
        Some(ImageKind::Bmp)
    } else {
        None
    }
}

/// The image `bytes` decode to in format `kind`, as rows of four-byte pixels
/// with its width and height, or `None` when the decoder refuses them.
pub uninterp spec fn decoded(bytes: Seq<u8>, kind: ImageKind) -> Option<(Seq<u8>, u32, u32)>;

/// Relies on image::guess_format: the format of the first signature in its
/// table that the bytes start with; no signature before those of PNG, JPEG
/// and BMP starts like them, and the other formats count as none.
#[verifier::external_body]
fn guess_kind(bytes: &[u8]) -> (r: Option<ImageKind>)
    ensures
        r == signature_kind(bytes@),
{
    match image::guess_format(bytes) {
        Ok(ImageFormat::Png) => Some(ImageKind::Png),
        Ok(ImageFormat::Jpeg) => Some(ImageKind::Jpeg),
        Ok(ImageFormat::Bmp) => Some(ImageKind::Bmp),
        _ => None,
    }
}

/// Relies on image::load_from_memory_with_format, then DynamicImage::to_rgba8
/// and ImageBuffer::into_raw: the decoded image as rows of four-byte pixels,
/// `width * height` of them.
#[verifier::external_body]
fn decode_rgba(bytes: &[u8], kind: ImageKind) -> (r: Result<(Vec<u8>, u32, u32), image::ImageError>)
    ensures
        r is Ok <==> decoded(bytes@, kind) is Some,
        r matches Ok((raw, width, height)) ==> decoded(bytes@, kind) == Some((raw@, width, height)),
        r matches Ok((raw, width, height)) ==> raw@.len() == 4 * width * height,
{
    let format = match kind {
        ImageKind::Png => ImageFormat::Png,
        ImageKind::Jpeg => ImageFormat::Jpeg,
        ImageKind::Bmp => ImageFormat::Bmp,
    };
    let rgba = image::load_from_memory_with_format(bytes, format)?.to_rgba8();
    let (width, height) = (rgba.width(), rgba.height());
    Ok((rgba.into_raw(), width, height))
}

/// Why an upload could not be turned into a display image.
#[derive(Debug)]
pub enum DecodeError {
    /// No format was named, and the bytes carry no known signature.
    UnknownFormat,
    /// The decoder refused the bytes.
    Image(image::ImageError),
    /// The padded buffer of an image this size would not fit a 32-bit count.
    TooLarge { width: u32, height: u32 },
}

/// Bytes in one pixel.
pub const PIXEL_BYTES: u32 = 4;

/// The hardware reads rows whose pixel count is a multiple of this.
pub const ROW_ALIGN: u32 = 16;

/// `width` rounded up to the next multiple of sixteen.
pub open spec fn padded_width(width: int) -> int {
    if width % 16 == 0 {
        width
    } else {
        width + (16 - width % 16)
    }
}

/// Bytes in a padded buffer of `width` by `height` pixels.
pub open spec fn padded_len(width: int, height: int) -> int {
    4 * padded_width(width) * height
}

/// Sizes whose padded row and buffer lengths fit the 32-bit count the
/// hardware takes.
pub open spec fn buffer_len_ok(width: u32, height: u32) -> bool {
    &&& 4 * padded_width(width as int) <= u32::MAX
    &&& padded_len(width as int, height as int) <= u32::MAX
}

/// Byte `i` of the padded buffer: in row `i / row`, at offset `i % row`, it is
/// the source byte at that offset when that falls inside the image's row, and
/// zero in the padding.
pub open spec fn padded_byte(raw: Seq<u8>, width: int, i: int) -> u8 {
    let row = 4 * padded_width(width);
    let col = i % row;
    if col < 4 * width {
        raw[(i / row) * (4 * width) + col]
    } else {
        0
    }
}

/// The padded buffer of an image given as rows of `width` four-byte pixels.
pub open spec fn padded_pixels(raw: Seq<u8>, width: int, height: int) -> Seq<u8> {
    Seq::new(padded_len(width, height) as nat, |i: int| padded_byte(raw, width, i))
}

/// The padded width is the least multiple of sixteen at or above `width`.
pub proof fn lemma_padded_width(width: int)
    requires
        width >= 0,
    ensures
        padded_width(width) % 16 == 0,
        width <= padded_width(width) < width + 16,
        width == 0 ==> padded_width(width) == 0,
{
}

proof fn lemma_row_bounds(y: int, height: int, row: int, k: int)
    requires
        0 <= y < height,
        0 <= k < row,
    ensures
        0 <= y * row + k < row * height,
        y * row + row <= row * height,
{
    assert(y * row + row <= row * height) by (nonlinear_arith)
        requires
            y < height,
            0 <= row,
    ;
    assert(0 <= y * row) by (nonlinear_arith)
        requires
            0 <= y,
            0 <= row,
    ;
}

/// Channel `c` of pixel `x` in row `y` of the padded buffer is the same
/// channel of the same pixel of the source inside the image's width, and zero
/// in every padding column of every row.
pub proof fn lemma_padded_layout(raw: Seq<u8>, width: u32, height: u32, y: int, x: int, c: int)
    requires
        raw.len() == 4 * width * height,
        0 <= y < height,
        0 <= x < padded_width(width as int),
        0 <= c < 4,
    ensures
        0 <= (y * padded_width(width as int) + x) * 4 + c < padded_len(width as int, height as int),
        padded_pixels(raw, width as int, height as int)[(y * padded_width(width as int) + x) * 4 + c]
            == if x < width {
            raw[(y * width + x) * 4 + c]
        } else {
            0
        },
{
    let s = padded_width(width as int);
    let i = (y * s + x) * 4 + c;
    let row = 4 * s;
    assert(i == y * row + (4 * x + c)) by (nonlinear_arith)
        requires
            i == (y * s + x) * 4 + c,
            row == 4 * s,
    ;
    lemma_row_bounds(y, height as int, row, 4 * x + c);
    assert(row * height == padded_len(width as int, height as int)) by (nonlinear_arith)
        requires
            row == 4 * s,
            s == padded_width(width as int),
    ;
    lemma_fundamental_div_mod_converse(i, row, y, 4 * x + c);
    if x < width {
        assert(y * (4 * width) + (4 * x + c) == (y * width + x) * 4 + c) by (nonlinear_arith);
    }
}

/// Whether an image of `width` by `height` has a padded buffer the hardware
/// can take.
pub fn buffer_fits(width: u32, height: u32) -> (r: bool)
    ensures
        r == buffer_len_ok(width, height),
{
    proof {
        lemma_padded_width(width as int);
    }
    let rem = (width % ROW_ALIGN) as u64;
    let padded: u64 = if rem == 0 {
        width as u64
    } else {
        width as u64 + (16 - rem)
    };
    let row = 4 * padded;
    if row > u32::MAX as u64 {
        return false;
    }
    proof {
        assert(row * height <= u32::MAX * u32::MAX) by (nonlinear_arith)
            requires
                row <= u32::MAX,
                height <= u32::MAX,
        ;
        assert(row * height == padded_len(width as int, height as int)) by (nonlinear_arith)
            requires
                row == 4 * padded_width(width as int),
        ;
    }
    row * (height as u64) <= u32::MAX as u64
}

/// Rounds `width` up to the next multiple of sixteen.
fn padded_width_of(width: u32) -> (r: u32)
    requires
        width <= u32::MAX - 15,
    ensures
        r as int == padded_width(width as int),
{
    let rem = width % ROW_ALIGN;
    if rem == 0 {
        width
    } else {
        width + (ROW_ALIGN - rem)
    }
}

/// Pads each row of `raw`, an image of `width` by `height` four-byte pixels,
/// with zero pixels up to the next multiple of sixteen pixels.
pub fn align_image(raw: Vec<u8>, width: u32, height: u32) -> (r: Vec<u8>)
    requires
        raw@.len() == 4 * width * height,
        buffer_len_ok(width, height),
    ensures
        r@ == padded_pixels(raw@, width as int, height as int),
{
    proof {
        lemma_padded_width(width as int);
        assert(padded_len(width as int, height as int) == 4 * padded_width(width as int) * height);
    }
    let stride = padded_width_of(width);
    let row_in = (PIXEL_BYTES as usize) * (width as usize);
    let row_out = (PIXEL_BYTES as usize) * (stride as usize);
    let ghost total = padded_len(width as int, height as int);
    proof {
        assert(total == row_out * height) by (nonlinear_arith)
            requires
                total == 4 * stride * height,
                row_out == 4 * stride,
        ;
        assert(raw@.len() == row_in * height) by (nonlinear_arith)
            requires
                raw@.len() == 4 * width * height,
                row_in == 4 * width,
        ;
        assert(row_in * height <= row_out * height) by (nonlinear_arith)
            requires
                row_in <= row_out,
                0 <= height,
        ;
    }
    if stride == width {
        proof {
            assert forall|i: int| 0 <= i < raw@.len() implies raw@[i] == #[trigger] padded_byte(
                raw@,
                width as int,
                i,
            ) by {
                lemma_fundamental_div_mod(i, row_out as int);
                assert(row_out > 0);
                assert((i / row_out as int) * row_out as int == row_out as int * (i / row_out as int))
                    by (nonlinear_arith);
            }
            assert(raw@ =~= padded_pixels(raw@, width as int, height as int));
        }
        return raw;
    }
    let mut out: Vec<u8> = Vec::new();
    let mut y: usize = 0;
    while y < height as usize
        invariant
            row_out == 4 * padded_width(width as int),
            row_in == 4 * width,
            0 < row_in < row_out,
            total == row_out * height,
            raw@.len() == row_in * height,
            raw@.len() <= total <= u32::MAX,
            y <= height,
            out@.len() == y * row_out,
            forall|j: int| 0 <= j < out@.len() ==> out@[j] == #[trigger] padded_byte(raw@, width as int, j),
        decreases height - y,
    {
        proof {
            lemma_row_bounds(y as int, height as int, row_out as int, 0);
            lemma_row_bounds(y as int, height as int, row_in as int, 0);
        }
        let base = y * row_in;
        let start = y * row_out;
        let mut k: usize = 0;
        while k < row_out
            invariant
                row_out == 4 * padded_width(width as int),
                row_in == 4 * width,
                0 < row_in < row_out,
                total == row_out * height,
                raw@.len() == row_in * height,
                raw@.len() <= total <= u32::MAX,
                y < height,
                base == y * row_in,
                start == y * row_out,
                start + row_out <= total,
                base + row_in <= raw@.len(),
                k <= row_out,
                out@.len() == start + k,
                forall|j: int| 0 <= j < out@.len() ==> out@[j] == #[trigger] padded_byte(raw@, width as int, j),
            decreases row_out - k,
        {
            let b = if k < row_in {
                raw[base + k]
            } else {
                0u8
            };
            proof {
                let i = start + k;
                lemma_fundamental_div_mod_converse(i as int, row_out as int, y as int, k as int);
                assert(i == y * row_out + k);
                assert(b == padded_byte(raw@, width as int, i as int));
            }
            out.push(b);
            k += 1;
        }
        assert(out@.len() == (y + 1) * row_out) by (nonlinear_arith)
            requires
                out@.len() == y * row_out + row_out,
        ;
        y += 1;
    }
    proof {
        assert(out@.len() == total) by (nonlinear_arith)
            requires
                out@.len() == y * row_out,
                y == height,
                total == row_out * height,
        ;
        assert(out@ =~= padded_pixels(raw@, width as int, height as int));
    }
    out
}

/// A decoded image, held as its padded pixel buffer.
pub struct DisplayImage {
    image: Vec<u8>,
    width: u32,
    height: u32,
    size: usize,
    format: ImageKind,
}

impl DisplayImage {
    /// Width in pixels, without padding.
    pub closed spec fn spec_width(&self) -> u32 {
        self.width
    }

    /// Height in pixels.
    pub closed spec fn spec_height(&self) -> u32 {
        self.height
    }

    /// `(width, height)` in pixels.
    pub open spec fn size_spec(&self) -> (u32, u32) {
        (self.spec_width(), self.spec_height())
    }

    /// The padded pixel buffer.
    pub closed spec fn pixels(&self) -> Seq<u8> {
        self.image@
    }

    /// Size in bytes of the encoded file the image came from.
    pub closed spec fn spec_file_size(&self) -> usize {
        self.size
    }

    /// The format the image was decoded from.
    pub closed spec fn spec_format(&self) -> ImageKind {
        self.format
    }

    /// The buffer holds the padded rows of the image, and its length fits a
    /// 32-bit count.
    pub open spec fn wf(&self) -> bool {
        &&& self.pixels().len() == padded_len(self.spec_width() as int, self.spec_height() as int)
        &&& buffer_len_ok(self.spec_width(), self.spec_height())
    }

    /// An image of `width` by `height` four-byte pixels given row by row in
    /// `raw`, decoded from a file of `size` bytes in `format`. The rows are
    /// padded as `align_image` pads them.
    pub fn new(raw: Vec<u8>, width: u32, height: u32, size: usize, format: ImageKind) -> (r: Self)
        requires
            raw@.len() == 4 * width * height,
            buffer_len_ok(width, height),
        ensures
            r.wf(),
            r.spec_width() == width,
            r.spec_height() == height,
            r.spec_file_size() == size,
            r.spec_format() == format,
            r.pixels() == padded_pixels(raw@, width as int, height as int),
    {
        let image = align_image(raw, width, height);
        DisplayImage { image, width, height, size, format }
    }

    /// `new`, on a buffer of any length and any size: `None` unless `raw`
    /// holds `width * height` four-byte pixels and the padded buffer fits a
    /// 32-bit count.
    pub fn from_rgba(raw: Vec<u8>, width: u32, height: u32, size: usize, format: ImageKind) -> (r: Option<Self>)
        ensures
            r is Some <==> raw@.len() == 4 * width * height && buffer_len_ok(width, height),
            r matches Some(img) ==> {
                &&& img.wf()
                &&& img.size_spec() == (width, height)
                &&& img.spec_file_size() == size
                &&& img.spec_format() == format
                &&& img.pixels() == padded_pixels(raw@, width as int, height as int)
            },
    {
        if !buffer_fits(width, height) {
            return None;
        }
        proof {
            lemma_padded_width(width as int);
            assert(4 * width * height <= padded_len(width as int, height as int)) by (nonlinear_arith)
                requires
                    width <= padded_width(width as int),
                    0 <= height,
            ;
        }
        if raw.len() as u64 != 4 * (width as u64) * (height as u64) {
            return None;
        }
        Some(DisplayImage::new(raw, width, height, size, format))
    }

    pub fn width(&self) -> (r: u32)
        ensures
            r == self.spec_width(),
    {
        self.width
    }

    pub fn height(&self) -> (r: u32)
        ensures
            r == self.spec_height(),
    {
        self.height
    }

    /// `(width, height)` in pixels, without padding.
    pub fn size(&self) -> (r: (u32, u32))
        ensures
            r == self.size_spec(),
    {
        (self.width, self.height)
    }

    /// Length in bytes of the padded buffer.
    pub fn len(&self) -> (r: u32)
        requires
            self.wf(),
        ensures
            r as int == self.pixels().len(),
            r as int == padded_len(self.spec_width() as int, self.spec_height() as int),
    {
        self.image.len() as u32
    }

    /// The padded buffer.
    pub fn as_raw(&self) -> (r: &[u8])
        ensures
            r@ == self.pixels(),
    {
        self.image.as_slice()
    }

    /// Size in bytes of the encoded file the image came from.
    pub fn file_size(&self) -> (r: usize)
        ensures
            r == self.spec_file_size(),
    {
        self.size
    }

    /// The format the image was decoded from.
    pub fn format(&self) -> (r: ImageKind)
        ensures
            r == self.spec_format(),
    {
        self.format
    }
}

/// The format an upload is decoded in: the one named, or else the one its
/// signature shows.
pub open spec fn chosen_kind(body: Seq<u8>, hint: Option<ImageKind>) -> Option<ImageKind> {
    match hint {
        Some(kind) => Some(kind),
        None => signature_kind(body),
    }
}

/// Decodes an uploaded file, in the format `hint` names or else in the one
/// its leading bytes show, and lays it out for the resize stage.
pub fn decode_image(body: &[u8], hint: Option<ImageKind>) -> (r: Result<DisplayImage, DecodeError>)
    ensures
        chosen_kind(body@, hint) is None <==> r matches Err(DecodeError::UnknownFormat),
        chosen_kind(body@, hint) matches Some(kind) ==> match decoded(body@, kind) {
            None => r matches Err(DecodeError::Image(_)),
            Some((raw, width, height)) => if buffer_len_ok(width, height) {
                r matches Ok(img) && img.wf() && img.size_spec() == (width, height)
                    && img.spec_file_size() == body@.len() && img.spec_format() == kind
                    && img.pixels() == padded_pixels(raw, width as int, height as int)
            } else {
                r matches Err(DecodeError::TooLarge { width: w, height: h }) && w == width && h == height
            },
        },
{
    let kind = match hint {
        Some(kind) => kind,
        None => match guess_kind(body) {
            Some(kind) => kind,
            None => return Err(DecodeError::UnknownFormat),
        },
    };
    match decode_rgba(body, kind) {
        Err(e) => Err(DecodeError::Image(e)),
        Ok((raw, width, height)) => match DisplayImage::from_rgba(raw, width, height, body.len(), kind) {
            Some(image) => Ok(image),
            None => Err(DecodeError::TooLarge { width, height }),
        },
    }
}

} // verus!
