//! The decoded desktop image and the packing of its updated regions.
//!
//! The image itself is kept by the session decoder as one buffer of RGBA pixels, row after row.
//! A region of it is handed on as a buffer of its own, whose rows follow each other without a gap.
use ironrdp::graphics::image_processing::PixelFormat as RdpPixelFormat;
use ironrdp::pdu::geometry::InclusiveRectangle;
use ironrdp::session::image::DecodedImage;
use vstd::prelude::*;

verus! {

/// The number of bytes of one pixel.
pub const BYTES_PER_PIXEL: u32 = 4;

/// A part of a pixel.
#[derive(Debug, Clone, Copy, PartialEq, Eq, Structural)]
pub enum Channel {
    Red,
    Green,
    Blue,
    Alpha,
    Unused,
}

/// The order in which the four bytes of a pixel lie in memory.
#[derive(Debug, Clone, Copy, PartialEq, Eq, Structural)]
pub enum PixelFormat {
    ARgb32,
    XRgb32,
    ABgr32,
    XBgr32,
    BgrA32,
    BgrX32,
    RgbA32,
    RgbX32,
}

impl PixelFormat {
    /// What each byte of a pixel holds.
    pub open spec fn channels(self) -> Seq<Channel> {
        let (red, green, blue) = (Channel::Red, Channel::Green, Channel::Blue);
        let (alpha, unused) = (Channel::Alpha, Channel::Unused);
        match self {
            PixelFormat::ARgb32 => seq![alpha, red, green, blue],
            PixelFormat::XRgb32 => seq![unused, red, green, blue],
            PixelFormat::ABgr32 => seq![alpha, blue, green, red],
            PixelFormat::XBgr32 => seq![unused, blue, green, red],
            PixelFormat::BgrA32 => seq![blue, green, red, alpha],
            PixelFormat::BgrX32 => seq![blue, green, red, unused],
            PixelFormat::RgbA32 => seq![red, green, blue, alpha],
            PixelFormat::RgbX32 => seq![red, green, blue, unused],
        }
    }
}

/// The format of the desktop image, which is that of the texture it is painted from.
pub const IMAGE_FORMAT: PixelFormat = PixelFormat::RgbA32;

/// `ironrdp::session::image::DecodedImage`: the pixel buffer of the session decoder.
#[verifier::external_type_specification]
#[verifier::external_body]
pub struct ExDecodedImage(DecodedImage);

/// The bytes of an image, row after row from the top, each row from the left.
pub uninterp spec fn image_bytes(image: DecodedImage) -> Seq<u8>;

/// The number of pixels in a row of an image.
pub uninterp spec fn image_width(image: DecodedImage) -> nat;

/// The format of the pixels of an image.
pub uninterp spec fn image_format(image: DecodedImage) -> PixelFormat;

/// The number of bytes from the start of a row of an image to the start of the next.
pub open spec fn image_stride(image: DecodedImage) -> nat {
    BYTES_PER_PIXEL as nat * image_width(image)
}

/// Whether an image of the given size can be allocated at all on this machine.
pub open spec fn is_allocatable(width: u16, height: u16) -> bool {
    width * height * BYTES_PER_PIXEL <= isize::MAX
}

/// Whether an image of the given size can be allocated at all on this machine.
pub fn can_be_allocated(width: u16, height: u16) -> (can: bool)
    ensures
        can == is_allocatable(width, height),
        can == (width * height * 4 <= isize::MAX),
{
    assert(width * height <= 0xffff * 0xffff) by (nonlinear_arith)
        requires
            width <= 0xffff,
            height <= 0xffff,
    ;
    width as u128 * height as u128 * 4 <= isize::MAX as u128
}

/// `DecodedImage::new`: an image of the given format and size, all bytes zero.
#[verifier::external_body]
pub(crate) fn new_image(format: PixelFormat, width: u16, height: u16) -> (image: DecodedImage)
    requires
        is_allocatable(width, height),
    ensures
        image_format(image) == format,
        image_width(image) == width,
        image_bytes(image) == Seq::new((width * height * BYTES_PER_PIXEL) as nat, |i: int| 0u8),
{
    let format = match format {
        PixelFormat::ARgb32 => RdpPixelFormat::ARgb32,
        PixelFormat::XRgb32 => RdpPixelFormat::XRgb32,
        PixelFormat::ABgr32 => RdpPixelFormat::ABgr32,
        PixelFormat::XBgr32 => RdpPixelFormat::XBgr32,
        PixelFormat::BgrA32 => RdpPixelFormat::BgrA32,
        PixelFormat::BgrX32 => RdpPixelFormat::BgrX32,
        PixelFormat::RgbA32 => RdpPixelFormat::RgbA32,
        PixelFormat::RgbX32 => RdpPixelFormat::RgbX32,
    };
    DecodedImage::new(format, width, height)
}

/// `DecodedImage::stride`: the bytes of one row. Every pixel format of the decoder has four bytes
/// per pixel.
#[verifier::external_body]
fn stride_of(image: &DecodedImage) -> (stride: usize)
    ensures
        stride == image_stride(*image),
{
    image.stride()
}

/// `DecodedImage::data`: the whole buffer.
#[verifier::external_body]
fn data_of(image: &DecodedImage) -> (data: &[u8])
    ensures
        data@ == image_bytes(*image),
{
    image.data()
}

/// `DecodedImage::data_for_rect`: the part of the buffer from the first byte of the region to the
/// last one. It slices the buffer, and so wants the region inside the image.
#[verifier::external_body]
fn data_for_region<'a>(image: &'a DecodedImage, region: &Region) -> (data: &'a [u8])
    requires
        region.lies_in(*image),
    ensures
        data@ == image_bytes(*image).subrange(region.first_byte(*image), region.end_byte(*image)),
{
    image.data_for_rect(&InclusiveRectangle {
        left: region.left,
        top: region.top,
        right: region.right,
        bottom: region.bottom,
    })
}

/// A rectangle of pixels; the pixels at `right` and at `bottom` belong to it.
#[derive(Debug, Clone, Copy, PartialEq, Eq, Structural)]
pub struct Region {
    pub left: u16,
    pub top: u16,
    pub right: u16,
    pub bottom: u16,
}

impl Region {
    /// The number of pixels in a row of the region.
    pub open spec fn columns(self) -> int {
        self.right - self.left + 1
    }

    /// The number of rows of the region.
    pub open spec fn rows(self) -> int {
        self.bottom - self.top + 1
    }

    /// Both extents are positive and fit in sixteen bits.
    pub open spec fn well_formed(self) -> bool {
        &&& 0 < self.columns() <= u16::MAX
        &&& 0 < self.rows() <= u16::MAX
    }

    /// Where the top left pixel of the region starts in the buffer of `image`.
    pub open spec fn first_byte(self, image: DecodedImage) -> int {
        self.left * BYTES_PER_PIXEL + self.top * image_stride(image)
    }

    /// Where the bottom right pixel of the region ends in the buffer of `image`.
    pub open spec fn end_byte(self, image: DecodedImage) -> int {
        self.first_byte(image) + (self.rows() - 1) * image_stride(image) + self.columns()
            * BYTES_PER_PIXEL
    }

    /// The region ends before the buffer of `image` does.
    pub open spec fn lies_in(self, image: DecodedImage) -> bool {
        &&& self.well_formed()
        &&& self.end_byte(image) <= image_bytes(image).len()
    }

    /// The width in pixels.
    pub fn width(&self) -> (width: u16)
        requires
            self.well_formed(),
        ensures
            width == self.columns(),
            width == self.right - self.left + 1,
    {
        self.right - self.left + 1
    }

    /// The height in pixels.
    pub fn height(&self) -> (height: u16)
        requires
            self.well_formed(),
        ensures
            height == self.rows(),
            height == self.bottom - self.top + 1,
    {
        self.bottom - self.top + 1
    }

    /// Whether the region lies in `image`.
    pub fn fits(&self, image: &DecodedImage) -> (fits: bool)
        ensures
            fits == self.lies_in(*image),
            fits <==> self.left <= self.right && self.top <= self.bottom && self.right - self.left
                < 0xFFFF && self.bottom - self.top < 0xFFFF && 4 * (self.bottom * image_width(
                *image,
            ) + self.right + 1) <= image_bytes(*image).len(),
    {
        proof {
            a_region_lies_in_an_image_up_to_its_last_pixel(*image, *self);
        }
        if self.left > self.right || self.top > self.bottom {
            return false;
        }
        if self.right - self.left == u16::MAX || self.bottom - self.top == u16::MAX {
            return false;
        }
        let stride: u128 = stride_of(image) as u128;
        let len: u128 = data_of(image).len() as u128;
        let top: u128 = self.top as u128;
        let below: u128 = (self.bottom - self.top) as u128;
        proof {
            assert(top * stride <= 0xffff * 0xffff_ffff_ffff_ffff) by (nonlinear_arith)
                requires
                    top <= 0xffff,
                    stride <= 0xffff_ffff_ffff_ffff,
            ;
            assert(below * stride <= 0xffff * 0xffff_ffff_ffff_ffff) by (nonlinear_arith)
                requires
                    below <= 0xffff,
                    stride <= 0xffff_ffff_ffff_ffff,
            ;
        }
        let end: u128 = self.left as u128 * 4 + top * stride + below * stride + self.width() as u128
            * 4;
        end <= len
    }
}

/// The first `rows` rows of `data`, which start `stride` bytes apart, each cut to `row_len` bytes.
/// A row that does not end inside `data` is left out.
pub open spec fn packed_rows(data: Seq<u8>, stride: nat, row_len: nat, rows: nat) -> Seq<u8>
    decreases rows,
{
    if rows == 0 {
        Seq::empty()
    } else {
        let start = (rows - 1) * stride;
        let above = packed_rows(data, stride, row_len, (rows - 1) as nat);
        if start + row_len <= data.len() {
            above + data.subrange(start, start + row_len)
        } else {
            above
        }
    }
}

/// Packs the rows of a region: `height` rows of `width` pixels, which start `stride` bytes apart
/// in `data`, follow each other in the result. A row that does not end inside `data` is left out.
pub fn pack_rows(data: &[u8], stride: usize, width: u32, height: u32) -> (packed: Vec<u8>)
    requires
        height > 0 ==> (height - 1) * stride + width * BYTES_PER_PIXEL <= usize::MAX,
    ensures
        packed@ == packed_rows(
            data@,
            stride as nat,
            (width * BYTES_PER_PIXEL) as nat,
            height as nat,
        ),
{
    let mut packed: Vec<u8> = Vec::new();
    let mut row: u32 = 0;
    while row < height
        invariant
            row <= height,
            height > 0 ==> (height - 1) * stride + width * BYTES_PER_PIXEL <= usize::MAX,
            packed@ == packed_rows(
                data@,
                stride as nat,
                (width * BYTES_PER_PIXEL) as nat,
                row as nat,
            ),
        decreases height - row,
    {
        proof {
            assert(row * stride <= (height - 1) * stride) by (nonlinear_arith)
                requires
                    0 <= row <= height - 1,
                    0 <= stride,
            ;
        }
        let start: usize = row as usize * stride;
        let end: usize = start + width as usize * 4;
        if end <= data.len() {
            let ghost before = packed@;
            packed.extend_from_slice(&data[start..end]);
            assert(packed@ =~= before + data@.subrange(start as int, end as int));
        }
        row = row + 1;
    }
    packed
}

/// Rows that all end inside the data are all packed, and byte `column` of row `row` comes from
/// byte `column` of that row of the data.
pub proof fn packed_rows_keep_every_byte(data: Seq<u8>, stride: nat, row_len: nat, rows: nat)
    requires
        rows > 0 ==> (rows - 1) * stride + row_len <= data.len(),
    ensures
        packed_rows(data, stride, row_len, rows).len() == rows * row_len,
        forall|row: int, column: int|
            0 <= row < rows && 0 <= column < row_len ==> packed_rows(
                data,
                stride,
                row_len,
                rows,
            )[row * row_len + column] == #[trigger] data[row * stride + column],
    decreases rows,
{
    if rows > 0 {
        let last = rows - 1;
        let above = packed_rows(data, stride, row_len, last as nat);
        let packed = packed_rows(data, stride, row_len, rows);
        if last > 0 {
            assert((last - 1) * stride <= last * stride) by (nonlinear_arith)
                requires
                    0 <= stride,
            ;
        }
        packed_rows_keep_every_byte(data, stride, row_len, last as nat);
        assert(last * row_len + row_len == rows * row_len) by (nonlinear_arith)
            requires
                last == rows - 1,
        ;
        assert(0 <= last * stride) by (nonlinear_arith)
            requires
                0 <= last,
                0 <= stride,
        ;
        assert(packed =~= above + data.subrange(last * stride, last * stride + row_len));
        assert forall|row: int, column: int|
            0 <= row < rows && 0 <= column < row_len implies packed[row * row_len + column]
            == #[trigger] data[row * stride + column] by {
            assert(0 <= row * row_len) by (nonlinear_arith)
                requires
                    0 <= row,
                    0 <= row_len,
            ;
            if row < last {
                assert(row * row_len + row_len <= last * row_len) by (nonlinear_arith)
                    requires
                        row + 1 <= last,
                        0 <= row_len,
                ;
                assert(above[row * row_len + column] == data[row * stride + column]);
            } else {
                assert(row == last);
                assert(packed[last * row_len + column] == data.subrange(
                    last * stride,
                    last * stride + row_len,
                )[column]);
            }
        }
    }
}

/// The packed bytes of a region of an image.
pub open spec fn region_bytes(image: DecodedImage, region: Region) -> Seq<u8> {
    packed_rows(
        image_bytes(image).subrange(region.first_byte(image), region.end_byte(image)),
        image_stride(image),
        (region.columns() * BYTES_PER_PIXEL) as nat,
        region.rows() as nat,
    )
}

/// The packed bytes of a region in an image are exactly its pixels: four bytes for each, and each
/// byte is the one that the image has at that place.
pub proof fn region_bytes_are_the_pixels(image: DecodedImage, region: Region)
    requires
        region.lies_in(image),
    ensures
        region_bytes(image, region).len() == region.rows() * (region.columns() * BYTES_PER_PIXEL),
        forall|row: int, column: int|
            0 <= row < region.rows() && 0 <= column < region.columns() * BYTES_PER_PIXEL
                ==> #[trigger] region_bytes(image, region)[row * (region.columns()
                * BYTES_PER_PIXEL) + column] == image_bytes(image)[(region.top + row)
                * image_stride(image) + region.left * BYTES_PER_PIXEL + column],
{
    let stride = image_stride(image);
    let row_len = (region.columns() * BYTES_PER_PIXEL) as nat;
    let rows = region.rows() as nat;
    let first = region.first_byte(image);
    assert(0 <= region.top * stride) by (nonlinear_arith)
        requires
            0 <= stride,
    ;
    assert(0 <= (rows - 1) * stride) by (nonlinear_arith)
        requires
            0 <= stride,
            1 <= rows,
    ;
    let data = image_bytes(image).subrange(first, region.end_byte(image));
    packed_rows_keep_every_byte(data, stride, row_len, rows);
    assert forall|row: int, column: int|
        0 <= row < rows && 0 <= column < row_len implies #[trigger] region_bytes(
        image,
        region,
    )[row * row_len + column] == image_bytes(image)[(region.top + row) * stride + region.left
        * BYTES_PER_PIXEL + column] by {
        assert(row * stride <= (rows - 1) * stride) by (nonlinear_arith)
            requires
                row <= rows - 1,
                0 <= stride,
        ;
        assert(0 <= row * stride) by (nonlinear_arith)
            requires
                0 <= row,
                0 <= stride,
        ;
        assert((region.top + row) * stride == region.top * stride + row * stride)
            by (nonlinear_arith);
        assert(data[row * stride + column] == image_bytes(image)[first + row * stride + column]);
    }
}

/// Copies a region out of an image.
pub fn copy_region(image: &DecodedImage, region: &Region) -> (packed: Vec<u8>)
    requires
        region.lies_in(*image),
    ensures
        packed@ == region_bytes(*image, *region),
        packed@.len() == (region.right - region.left + 1) * 4 * (region.bottom - region.top + 1),
        forall|row: int, column: int|
            0 <= row <= region.bottom - region.top && 0 <= column < (region.right - region.left + 1)
                * 4 ==> #[trigger] packed@[row * ((region.right - region.left + 1) * 4) + column]
                == image_bytes(*image)[(region.top + row) * (4 * image_width(*image)) + region.left
                * 4 + column],
{
    proof {
        a_region_is_copied_pixel_by_pixel(*image, *region);
    }
    let stride: usize = stride_of(image);
    let data = data_for_region(image, region);
    proof {
        assert(0 <= region.top * stride) by (nonlinear_arith)
            requires
                0 <= stride,
        ;
        assert(0 <= (region.rows() - 1) * stride) by (nonlinear_arith)
            requires
                0 <= stride,
                1 <= region.rows(),
        ;
        assert(data.len() == (region.rows() - 1) * stride + region.columns() * BYTES_PER_PIXEL);
    }
    pack_rows(data, stride, region.width() as u32, region.height() as u32)
}

/// Whether an image has a size: as many rows of that many pixels as it says, and no bytes beyond.
pub open spec fn has_size(image: DecodedImage, width: nat, height: nat) -> bool {
    &&& image_width(image) == width
    &&& image_bytes(image).len() == height * (BYTES_PER_PIXEL as nat * width)
}

/// Whether two images differ in nothing but what is painted on them.
pub open spec fn same_shape(a: DecodedImage, b: DecodedImage) -> bool {
    &&& image_format(a) == image_format(b)
    &&& image_width(a) == image_width(b)
    &&& image_bytes(a).len() == image_bytes(b).len()
}

/// Every region between the edges of an image lies in it.
pub proof fn a_region_between_the_edges_lies_in_the_image(
    image: DecodedImage,
    width: u16,
    height: u16,
    region: Region,
)
    requires
        has_size(image, width as nat, height as nat),
        region.left <= region.right < width,
        region.top <= region.bottom < height,
    ensures
        region.lies_in(image),
{
    let stride = image_stride(image);
    assert(region.top * stride + (region.rows() - 1) * stride == region.bottom * stride)
        by (nonlinear_arith)
        requires
            region.rows() - 1 == region.bottom - region.top,
    ;
    assert(region.bottom * stride + stride <= height * stride) by (nonlinear_arith)
        requires
            region.bottom + 1 <= height,
            0 <= stride,
    ;
}

/// A region lies in an image exactly when it has pixels, its extents fit in sixteen bits, and its
/// last pixel, at `right` in the row `bottom`, ends inside the bytes of the image.
pub proof fn a_region_lies_in_an_image_up_to_its_last_pixel(image: DecodedImage, region: Region)
    ensures
        region.lies_in(image) <==> region.left <= region.right && region.top <= region.bottom
            && region.right - region.left < 0xFFFF && region.bottom - region.top < 0xFFFF && 4 * (
        region.bottom * image_width(image) + region.right + 1) <= image_bytes(image).len(),
{
    let width = image_width(image);
    assert(region.left * 4 + region.top * (4 * width) + (region.bottom - region.top) * (4 * width)
        + (region.right - region.left + 1) * 4 == 4 * (region.bottom * width + region.right + 1))
        by (nonlinear_arith);
}

/// Rows that do not end inside the data are left out, and nothing else is: if row `fitting` is the
/// first of them, the rows before it are all that is packed.
pub proof fn rows_outside_the_data_are_left_out(
    data: Seq<u8>,
    stride: nat,
    row_len: nat,
    fitting: nat,
    rows: nat,
)
    requires
        fitting <= rows,
        fitting > 0 ==> (fitting - 1) * stride + row_len <= data.len(),
        fitting < rows ==> fitting * stride + row_len > data.len(),
    ensures
        packed_rows(data, stride, row_len, rows) == packed_rows(data, stride, row_len, fitting),
        packed_rows(data, stride, row_len, rows).len() == fitting * row_len,
        forall|row: int, column: int|
            0 <= row < fitting && 0 <= column < row_len ==> packed_rows(
                data,
                stride,
                row_len,
                rows,
            )[row * row_len + column] == #[trigger] data[row * stride + column],
    decreases rows,
{
    packed_rows_keep_every_byte(data, stride, row_len, fitting);
    if fitting < rows {
        let last = (rows - 1) as nat;
        assert(fitting * stride <= last * stride) by (nonlinear_arith)
            requires
                fitting <= last,
        ;
        rows_outside_the_data_are_left_out(data, stride, row_len, fitting, last);
    }
}

/// The packed bytes of a region from `left` to `right` and from `top` to `bottom`: four for each of
/// its pixels, and byte `column` of its row `row` is the one that the image has in row `top + row`,
/// `column` bytes right of the pixel at `left`.
pub proof fn a_region_is_copied_pixel_by_pixel(image: DecodedImage, region: Region)
    requires
        region.lies_in(image),
    ensures
        region_bytes(image, region).len() == (region.right - region.left + 1) * 4 * (region.bottom
            - region.top + 1),
        forall|row: int, column: int|
            0 <= row <= region.bottom - region.top && 0 <= column < (region.right - region.left + 1)
                * 4 ==> #[trigger] region_bytes(image, region)[row * ((region.right - region.left
                + 1) * 4) + column] == image_bytes(image)[(region.top + row) * (4 * image_width(
                image,
            )) + region.left * 4 + column],
{
    region_bytes_are_the_pixels(image, region);
    let columns = region.right - region.left + 1;
    let rows = region.bottom - region.top + 1;
    assert(rows * (columns * 4) == columns * 4 * rows) by (nonlinear_arith);
}

} // verus!
