//! The pixel buffer: its layout, the clipping pixel write and the rectangle
//! fill built on it.

use vstd::prelude::*;
use crate::error::MlxError;

verus! {

/// The byte offset of the pixel at (`x`, `y`) in a buffer whose rows are
/// `stride` apart and whose pixels take `bpp` bits.
pub open spec fn pixel_offset(x: int, y: int, stride: int, bpp: int) -> int {
    (x + y * stride) * (bpp / 8)
}

/// Byte `k` of a color word, counted from its low end.
pub open spec fn color_byte(color: u32, k: int) -> u8 {
    if k == 0 {
        (color & 0xff) as u8
    } else if k == 1 {
        ((color >> 8) & 0xff) as u8
    } else if k == 2 {
        ((color >> 16) & 0xff) as u8
    } else {
        ((color >> 24) & 0xff) as u8
    }
}

/// The four bytes of a color word, low byte first.
pub fn color_bytes(color: u32) -> (bytes: [u8; 4])
    ensures
        forall|k: int| 0 <= k < 4 ==> bytes@[k] == color_byte(color, k),
{
    let b0: u32 = color & 0xff;
    let b1: u32 = (color >> 8) & 0xff;
    let b2: u32 = (color >> 16) & 0xff;
    let b3: u32 = (color >> 24) & 0xff;
    assert(b0 <= 0xff && b1 <= 0xff && b2 <= 0xff && b3 <= 0xff) by (bit_vector)
        requires
            b0 == color & 0xff,
            b1 == (color >> 8) & 0xff,
            b2 == (color >> 16) & 0xff,
            b3 == (color >> 24) & 0xff,
    ;
    [b0 as u8, b1 as u8, b2 as u8, b3 as u8]
}

/// `data` with the four bytes of `color` stored from `offset` on, low byte
/// first. Every other byte is kept.
pub open spec fn write_color(data: Seq<u8>, offset: int, color: u32) -> Seq<u8> {
    Seq::new(
        data.len(),
        |k: int|
            if offset <= k < offset + 4 {
                color_byte(color, k - offset)
            } else {
                data[k]
            },
    )
}

/// What a pixel write makes of `data`: the color is stored where the pixel's
/// offset lies inside the writable region of `size` bytes, and nothing
/// changes where it lies outside.
pub open spec fn put_pixel_bytes(
    data: Seq<u8>,
    size: int,
    stride: int,
    bpp: int,
    x: int,
    y: int,
    color: u32,
) -> Seq<u8> {
    let offset = pixel_offset(x, y, stride, bpp);
    if 0 <= offset < size {
        write_color(data, offset, color)
    } else {
        data
    }
}

/// What the pixel writes of one column make of `data`: the pixels of column
/// `x` from row `y0` up to, but not including, row `y1`, in rising order.
pub open spec fn fill_column(
    data: Seq<u8>,
    size: int,
    stride: int,
    bpp: int,
    x: int,
    y0: int,
    y1: int,
    color: u32,
) -> Seq<u8>
    decreases y1 - y0,
{
    if y1 <= y0 {
        data
    } else {
        put_pixel_bytes(
            fill_column(data, size, stride, bpp, x, y0, y1 - 1, color),
            size,
            stride,
            bpp,
            x,
            y1 - 1,
            color,
        )
    }
}

/// What a rectangle fill makes of `data`: the columns from `x0` up to, but not
/// including, `x1`, in rising order, each over the rows from `y0` to `y1`.
pub open spec fn fill_rect(
    data: Seq<u8>,
    size: int,
    stride: int,
    bpp: int,
    x0: int,
    x1: int,
    y0: int,
    y1: int,
    color: u32,
) -> Seq<u8>
    decreases x1 - x0,
{
    if x1 <= x0 {
        data
    } else {
        fill_column(
            fill_rect(data, size, stride, bpp, x0, x1 - 1, y0, y1, color),
            size,
            stride,
            bpp,
            x1 - 1,
            y0,
            y1,
            color,
        )
    }
}

/// A pixel write inside the region stores the four bytes of the color at the
/// pixel's offset and leaves every other byte as it was.
pub proof fn lemma_write_color_exact(data: Seq<u8>, offset: int, color: u32)
    requires
        0 <= offset,
        offset + 4 <= data.len(),
    ensures
        write_color(data, offset, color).len() == data.len(),
        forall|k: int| 0 <= k < 4 ==> write_color(data, offset, color)[offset + k] == color_byte(color, k),
        forall|k: int|
            0 <= k < data.len() && !(offset <= k < offset + 4) ==> write_color(
                data,
                offset,
                color,
            )[k] == data[k],
{
}

/// A rectangle without any interior point, be it empty or reversed on either
/// axis, writes nothing.
pub proof fn lemma_fill_rect_empty(
    data: Seq<u8>,
    size: int,
    stride: int,
    bpp: int,
    x0: int,
    x1: int,
    y0: int,
    y1: int,
    color: u32,
)
    requires
        x1 <= x0 || y1 <= y0,
    ensures
        fill_rect(data, size, stride, bpp, x0, x1, y0, y1, color) == data,
    decreases x1 - x0,
{
    if x1 > x0 {
        lemma_fill_rect_empty(data, size, stride, bpp, x0, x1 - 1, y0, y1, color);
    }
}

/// A rectangle of one point writes exactly that pixel.
pub proof fn lemma_fill_rect_unit(
    data: Seq<u8>,
    size: int,
    stride: int,
    bpp: int,
    x: int,
    y: int,
    color: u32,
)
    ensures
        fill_rect(data, size, stride, bpp, x, x + 1, y, y + 1, color) == put_pixel_bytes(
            data,
            size,
            stride,
            bpp,
            x,
            y,
            color,
        ),
{
    assert(fill_rect(data, size, stride, bpp, x, x, y, y + 1, color) == data);
    assert(fill_column(data, size, stride, bpp, x, y, y, color) == data);
    assert(fill_column(data, size, stride, bpp, x, y, y + 1, color) == put_pixel_bytes(
        fill_column(data, size, stride, bpp, x, y, y, color),
        size,
        stride,
        bpp,
        x,
        y,
        color,
    ));
}

/// Whether the pixel at (`x`, `y`) is written and its four bytes cover the
/// byte at position `at`.
pub open spec fn pixel_covers(size: int, stride: int, bpp: int, x: int, y: int, at: int) -> bool {
    let offset = pixel_offset(x, y, stride, bpp);
    0 <= offset < size && offset <= at < offset + 4
}

/// The writes of one column keep the length of the buffer, and keep every
/// byte that none of the column's pixels covers.
pub proof fn lemma_fill_column_keeps(
    data: Seq<u8>,
    size: int,
    stride: int,
    bpp: int,
    x: int,
    y0: int,
    y1: int,
    color: u32,
    at: int,
)
    requires
        0 <= at < data.len(),
        forall|y: int| y0 <= y < y1 ==> !pixel_covers(size, stride, bpp, x, y, at),
    ensures
        fill_column(data, size, stride, bpp, x, y0, y1, color).len() == data.len(),
        fill_column(data, size, stride, bpp, x, y0, y1, color)[at] == data[at],
    decreases y1 - y0,
{
    if y1 > y0 {
        lemma_fill_column_keeps(data, size, stride, bpp, x, y0, y1 - 1, color, at);
        assert(!pixel_covers(size, stride, bpp, x, y1 - 1, at));
    }
}

/// A rectangle fill keeps the length of the buffer, and keeps every byte that
/// no pixel of the rectangle covers: what lies outside the rectangle, and
/// what would lie outside the writable region, is never touched.
pub proof fn lemma_fill_rect_keeps(
    data: Seq<u8>,
    size: int,
    stride: int,
    bpp: int,
    x0: int,
    x1: int,
    y0: int,
    y1: int,
    color: u32,
    at: int,
)
    requires
        0 <= at < data.len(),
        forall|x: int, y: int|
            x0 <= x < x1 && y0 <= y < y1 ==> !pixel_covers(size, stride, bpp, x, y, at),
    ensures
        fill_rect(data, size, stride, bpp, x0, x1, y0, y1, color).len() == data.len(),
        fill_rect(data, size, stride, bpp, x0, x1, y0, y1, color)[at] == data[at],
    decreases x1 - x0,
{
    if x1 > x0 {
        lemma_fill_rect_keeps(data, size, stride, bpp, x0, x1 - 1, y0, y1, color, at);
        lemma_fill_column_keeps(
            fill_rect(data, size, stride, bpp, x0, x1 - 1, y0, y1, color),
            size,
            stride,
            bpp,
            x1 - 1,
            y0,
            y1,
            color,
            at,
        );
    }
}

/// Whether the four bytes of `color` stand in `data` at `offset`.
pub open spec fn holds_color(data: Seq<u8>, offset: int, color: u32) -> bool {
    &&& 0 <= offset
    &&& offset + 4 <= data.len()
    &&& forall|j: int| 0 <= j < 4 ==> data[offset + j] == color_byte(color, j)
}

/// Where a pixel takes four bytes or more, a color that stands at the offset
/// of one pixel is not disturbed by the write of the same color to any pixel:
/// the two offsets are the same, or four bytes or more apart.
pub proof fn lemma_put_pixel_keeps_color(
    data: Seq<u8>,
    size: int,
    stride: int,
    bpp: int,
    x: int,
    y: int,
    color: u32,
    px: int,
    py: int,
)
    requires
        bpp / 8 >= 4,
        size + 3 <= data.len(),
        holds_color(data, pixel_offset(px, py, stride, bpp), color),
    ensures
        put_pixel_bytes(data, size, stride, bpp, x, y, color).len() == data.len(),
        holds_color(
            put_pixel_bytes(data, size, stride, bpp, x, y, color),
            pixel_offset(px, py, stride, bpp),
            color,
        ),
{
    let m = bpp / 8;
    let p = px + py * stride;
    let q = x + y * stride;
    assert(p == q || p * m - q * m >= 4 || q * m - p * m >= 4) by (nonlinear_arith)
        requires
            m >= 4,
    ;
}

/// The writes of one column keep the length of the buffer.
pub proof fn lemma_fill_column_len(
    data: Seq<u8>,
    size: int,
    stride: int,
    bpp: int,
    x: int,
    y0: int,
    y1: int,
    color: u32,
)
    ensures
        fill_column(data, size, stride, bpp, x, y0, y1, color).len() == data.len(),
    decreases y1 - y0,
{
    if y1 > y0 {
        lemma_fill_column_len(data, size, stride, bpp, x, y0, y1 - 1, color);
    }
}

/// A rectangle fill keeps the length of the buffer.
pub proof fn lemma_fill_rect_len(
    data: Seq<u8>,
    size: int,
    stride: int,
    bpp: int,
    x0: int,
    x1: int,
    y0: int,
    y1: int,
    color: u32,
)
    ensures
        fill_rect(data, size, stride, bpp, x0, x1, y0, y1, color).len() == data.len(),
    decreases x1 - x0,
{
    if x1 > x0 {
        lemma_fill_rect_len(data, size, stride, bpp, x0, x1 - 1, y0, y1, color);
        lemma_fill_column_len(
            fill_rect(data, size, stride, bpp, x0, x1 - 1, y0, y1, color),
            size,
            stride,
            bpp,
            x1 - 1,
            y0,
            y1,
            color,
        );
    }
}

/// Where a pixel takes four bytes or more, the writes of one column do not
/// disturb a color that stands at the offset of a pixel.
pub proof fn lemma_fill_column_keeps_color(
    data: Seq<u8>,
    size: int,
    stride: int,
    bpp: int,
    x: int,
    y0: int,
    y1: int,
    color: u32,
    px: int,
    py: int,
)
    requires
        bpp / 8 >= 4,
        size + 3 <= data.len(),
        holds_color(data, pixel_offset(px, py, stride, bpp), color),
    ensures
        holds_color(
            fill_column(data, size, stride, bpp, x, y0, y1, color),
            pixel_offset(px, py, stride, bpp),
            color,
        ),
    decreases y1 - y0,
{
    if y1 > y0 {
        lemma_fill_column_keeps_color(data, size, stride, bpp, x, y0, y1 - 1, color, px, py);
        lemma_fill_column_len(data, size, stride, bpp, x, y0, y1 - 1, color);
        lemma_put_pixel_keeps_color(
            fill_column(data, size, stride, bpp, x, y0, y1 - 1, color),
            size,
            stride,
            bpp,
            x,
            y1 - 1,
            color,
            px,
            py,
        );
    }
}

/// Where a pixel takes four bytes or more, the writes of one column leave the
/// color at every pixel of the column that lies inside the writable region.
pub proof fn lemma_fill_column_paints(
    data: Seq<u8>,
    size: int,
    stride: int,
    bpp: int,
    x: int,
    y0: int,
    y1: int,
    color: u32,
    y: int,
)
    requires
        bpp / 8 >= 4,
        size + 3 <= data.len(),
        y0 <= y < y1,
        0 <= pixel_offset(x, y, stride, bpp) < size,
    ensures
        holds_color(
            fill_column(data, size, stride, bpp, x, y0, y1, color),
            pixel_offset(x, y, stride, bpp),
            color,
        ),
    decreases y1 - y0,
{
    let before = fill_column(data, size, stride, bpp, x, y0, y1 - 1, color);
    lemma_fill_column_len(data, size, stride, bpp, x, y0, y1 - 1, color);
    if y == y1 - 1 {
        lemma_write_color_exact(before, pixel_offset(x, y, stride, bpp), color);
    } else {
        lemma_fill_column_paints(data, size, stride, bpp, x, y0, y1 - 1, color, y);
        lemma_put_pixel_keeps_color(before, size, stride, bpp, x, y1 - 1, color, x, y);
    }
}

/// Where a pixel takes four bytes or more, a rectangle fill leaves the color
/// at every pixel of the rectangle that lies inside the writable region.
pub proof fn lemma_fill_rect_paints(
    data: Seq<u8>,
    size: int,
    stride: int,
    bpp: int,
    x0: int,
    x1: int,
    y0: int,
    y1: int,
    color: u32,
    x: int,
    y: int,
)
    requires
        bpp / 8 >= 4,
        size + 3 <= data.len(),
        x0 <= x < x1,
        y0 <= y < y1,
        0 <= pixel_offset(x, y, stride, bpp) < size,
    ensures
        holds_color(
            fill_rect(data, size, stride, bpp, x0, x1, y0, y1, color),
            pixel_offset(x, y, stride, bpp),
            color,
        ),
    decreases x1 - x0,
{
    let before = fill_rect(data, size, stride, bpp, x0, x1 - 1, y0, y1, color);
    lemma_fill_rect_len(data, size, stride, bpp, x0, x1 - 1, y0, y1, color);
    if x == x1 - 1 {
        lemma_fill_column_paints(before, size, stride, bpp, x, y0, y1, color, y);
    } else {
        lemma_fill_rect_paints(data, size, stride, bpp, x0, x1 - 1, y0, y1, color, x, y);
        lemma_fill_column_keeps_color(before, size, stride, bpp, x1 - 1, y0, y1, color, x, y);
    }
}

/// A pixel surface that belongs to no window: its geometry, the layout of its
/// rows, and the bytes of its pixels.
///
/// The writable region has `size_line * height` bytes. The buffer is three
/// bytes longer, so that a color stored at the last offset of the region still
/// lies inside the buffer.
pub struct MlxImage {
    /// The width in pixels.
    pub width: i32,
    /// The height in pixels.
    pub height: i32,
    img_ptr: u64,
    data: Vec<u8>,
    bits_per_pixel: i32,
    size_line: i32,
    endian: i32,
    pixel_count: usize,
}

impl MlxImage {
    /// The width in pixels.
    pub closed spec fn spec_width(&self) -> i32 {
        self.width
    }

    /// The height in pixels.
    pub closed spec fn spec_height(&self) -> i32 {
        self.height
    }

    /// The server's handle of the image, or zero once it has been destroyed.
    pub closed spec fn handle(&self) -> u64 {
        self.img_ptr
    }

    /// The bytes of the buffer.
    pub closed spec fn bytes(&self) -> Seq<u8> {
        self.data@
    }

    /// The number of bits that one pixel takes.
    pub closed spec fn bpp(&self) -> int {
        self.bits_per_pixel as int
    }

    /// The number of bytes from one row to the next.
    pub closed spec fn stride(&self) -> int {
        self.size_line as int
    }

    /// The byte order that the server reported for the image.
    pub closed spec fn byte_order(&self) -> int {
        self.endian as int
    }

    /// The size of the writable region in bytes.
    pub closed spec fn region_size(&self) -> int {
        self.pixel_count as int
    }

    /// The layout is sound: the region has one stride per row, and the buffer
    /// reaches three bytes past it.
    pub closed spec fn wf(&self) -> bool {
        &&& self.bits_per_pixel >= 0
        &&& self.size_line >= 0
        &&& self.pixel_count + 3 <= self.data@.len()
    }

    /// Whether an image can be made of these values: the server handed out a
    /// handle, no measure is negative, and the buffer holds the region of
    /// `size_line * height` bytes and three bytes more.
    pub open spec fn accepts(
        img_ptr: u64,
        height: i32,
        bits_per_pixel: i32,
        size_line: i32,
        len: int,
    ) -> bool {
        &&& img_ptr != 0
        &&& height >= 0
        &&& bits_per_pixel >= 0
        &&& size_line >= 0
        &&& size_line * height + 3 <= len
    }

    /// Makes the image of the handle and the layout that the server reported,
    /// over the bytes of `data`.
    pub fn new(
        img_ptr: u64,
        width: i32,
        height: i32,
        bits_per_pixel: i32,
        size_line: i32,
        endian: i32,
        data: Vec<u8>,
    ) -> (image: Result<MlxImage, MlxError>)
        ensures
            image.is_ok() == Self::accepts(img_ptr, height, bits_per_pixel, size_line, data@.len() as int),
            image.is_err() ==> image == Err::<MlxImage, MlxError>(MlxError::ImageCreationError),
            image.is_ok() ==> {
                let made = image.unwrap();
                &&& made.wf()
                &&& made.spec_width() == width
                &&& made.spec_height() == height
                &&& made.handle() == img_ptr
                &&& made.bytes() == data@
                &&& made.bpp() == bits_per_pixel
                &&& made.stride() == size_line
                &&& made.byte_order() == endian
                &&& made.region_size() == size_line * height
            },
    {
        if img_ptr == 0 || height < 0 || bits_per_pixel < 0 || size_line < 0 {
            return Err(MlxError::ImageCreationError);
        }
        assert(0 <= size_line * height <= 0x7fff_ffff * 0x7fff_ffff) by (nonlinear_arith)
            requires
                0 <= size_line <= 0x7fff_ffff,
                0 <= height <= 0x7fff_ffff,
        ;
        let region: u64 = (size_line as u64) * (height as u64);
        let len: usize = data.len();
        if len < 3 || region > (len - 3) as u64 {
            return Err(MlxError::ImageCreationError);
        }
        Ok(
            MlxImage {
                width,
                height,
                img_ptr,
                data,
                bits_per_pixel,
                size_line,
                endian,
                pixel_count: region as usize,
            },
        )
    }

    /// The server's handle of the image, zero after `destroy`.
    pub fn ptr(&self) -> (handle: u64)
        ensures
            handle == self.handle(),
    {
        self.img_ptr
    }

    /// The bytes of the buffer, for the blit.
    pub fn data(&self) -> (bytes: &Vec<u8>)
        ensures
            bytes@ == self.bytes(),
    {
        &self.data
    }

    /// The number of bits per pixel.
    pub fn bits_per_pixel(&self) -> (bits: i32)
        ensures
            bits == self.bpp(),
    {
        self.bits_per_pixel
    }

    /// The number of bytes per row.
    pub fn size_line(&self) -> (stride: i32)
        ensures
            stride == self.stride(),
    {
        self.size_line
    }

    /// The byte order reported by the server.
    pub fn endian(&self) -> (order: i32)
        ensures
            order == self.byte_order(),
    {
        self.endian
    }

    /// The size of the writable region in bytes.
    pub fn pixel_count(&self) -> (size: usize)
        ensures
            size == self.region_size(),
    {
        self.pixel_count
    }

    /// The image as it stands after a destroy on the connection `mlx_ptr`.
    pub closed spec fn destroyed(self, mlx_ptr: u64) -> MlxImage {
        if self.img_ptr == 0 || mlx_ptr == 0 {
            self
        } else {
            MlxImage { img_ptr: 0, ..self }
        }
    }

    /// The handle that a destroy on the connection `mlx_ptr` gives up for
    /// release.
    pub open spec fn released(self, mlx_ptr: u64) -> Option<u64> {
        if self.handle() == 0 || mlx_ptr == 0 {
            None
        } else {
            Some(self.handle())
        }
    }

    /// Gives the handle up for release and invalidates it. The handle comes
    /// back once: a second call, or a call without a connection, returns
    /// `None` and changes nothing.
    pub fn destroy(&mut self, mlx_ptr: u64) -> (released: Option<u64>)
        ensures
            released == old(self).released(mlx_ptr),
            *final(self) == old(self).destroyed(mlx_ptr),
            old(self).handle() == 0 || mlx_ptr == 0 ==> *final(self) == *old(self),
            old(self).handle() != 0 && mlx_ptr != 0 ==> {
                &&& final(self).handle() == 0
                &&& final(self).bytes() == old(self).bytes()
                &&& final(self).bpp() == old(self).bpp()
                &&& final(self).stride() == old(self).stride()
                &&& final(self).byte_order() == old(self).byte_order()
                &&& final(self).region_size() == old(self).region_size()
                &&& final(self).spec_width() == old(self).spec_width()
                &&& final(self).spec_height() == old(self).spec_height()
                &&& final(self).wf() == old(self).wf()
            },
    {
        if self.img_ptr == 0 || mlx_ptr == 0 {
            return None;
        }
        let handle = self.img_ptr;
        self.img_ptr = 0;
        Some(handle)
    }

    /// Stores `color` at the pixel (`x`, `y`), low byte first. A pixel whose
    /// offset lies outside the writable region is clipped: nothing is written
    /// and nothing fails.
    pub fn put_pixel(&mut self, x: i32, y: i32, color: u32)
        requires
            old(self).wf(),
        ensures
            final(self).wf(),
            final(self).bytes() == put_pixel_bytes(
                old(self).bytes(),
                old(self).region_size(),
                old(self).stride(),
                old(self).bpp(),
                x as int,
                y as int,
                color,
            ),
            final(self).handle() == old(self).handle(),
            final(self).bpp() == old(self).bpp(),
            final(self).stride() == old(self).stride(),
            final(self).byte_order() == old(self).byte_order(),
            final(self).region_size() == old(self).region_size(),
            final(self).spec_width() == old(self).spec_width(),
            final(self).spec_height() == old(self).spec_height(),
    {
        let stride: i128 = self.size_line as i128;
        let bytes_per_pixel: i128 = (self.bits_per_pixel / 8) as i128;
        assert(-0x8000_0000 * 0x8000_0000 <= (y as int) * (stride as int) <= 0x8000_0000
            * 0x8000_0000) by (nonlinear_arith)
            requires
                -0x8000_0000 <= y <= 0x8000_0000,
                0 <= stride <= 0x8000_0000,
        ;
        let position: i128 = x as i128 + (y as i128) * stride;
        assert(-0x1_0000_0000_0000_0000 * 0x1000_0000 <= (position as int) * (
        bytes_per_pixel as int) <= 0x1_0000_0000_0000_0000 * 0x1000_0000) by (nonlinear_arith)
            requires
                -0x1_0000_0000_0000_0000 <= position <= 0x1_0000_0000_0000_0000,
                0 <= bytes_per_pixel <= 0x1000_0000,
        ;
        let offset: i128 = position * bytes_per_pixel;
        if 0 <= offset && offset < self.pixel_count as i128 {
            let at: usize = offset as usize;
            let len: usize = self.data.len();
            let bytes = color_bytes(color);
            assert(at + 3 < len);
            self.data.set(at, bytes[0]);
            self.data.set(at + 1, bytes[1]);
            self.data.set(at + 2, bytes[2]);
            self.data.set(at + 3, bytes[3]);
            assert(self.data@ =~= write_color(old(self).data@, offset as int, color));
        }
    }

    /// Stores `color` at every point of the rectangle from `top_left` up to,
    /// but not including, `bot_right`, column by column. A rectangle that is
    /// empty or reversed on either axis writes nothing.
    pub fn put_rect(&mut self, top_left: (i32, i32), bot_right: (i32, i32), color: u32)
        requires
            old(self).wf(),
        ensures
            final(self).wf(),
            final(self).bytes() == fill_rect(
                old(self).bytes(),
                old(self).region_size(),
                old(self).stride(),
                old(self).bpp(),
                top_left.0 as int,
                bot_right.0 as int,
                top_left.1 as int,
                bot_right.1 as int,
                color,
            ),
            final(self).handle() == old(self).handle(),
            final(self).bpp() == old(self).bpp(),
            final(self).stride() == old(self).stride(),
            final(self).byte_order() == old(self).byte_order(),
            final(self).region_size() == old(self).region_size(),
            final(self).spec_width() == old(self).spec_width(),
            final(self).spec_height() == old(self).spec_height(),
    {
        let ghost start = *self;
        let mut x: i32 = top_left.0;
        while x < bot_right.0
            invariant
                top_left.0 <= x,
                x <= bot_right.0 || x == top_left.0,
                self.wf(),
                self.img_ptr == start.img_ptr,
                self.bits_per_pixel == start.bits_per_pixel,
                self.size_line == start.size_line,
                self.endian == start.endian,
                self.pixel_count == start.pixel_count,
                self.width == start.width,
                self.height == start.height,
                self.data@ == fill_rect(
                    start.data@,
                    start.pixel_count as int,
                    start.size_line as int,
                    start.bits_per_pixel as int,
                    top_left.0 as int,
                    x as int,
                    top_left.1 as int,
                    bot_right.1 as int,
                    color,
                ),
            decreases bot_right.0 - x,
        {
            let ghost column = *self;
            let mut y: i32 = top_left.1;
            while y < bot_right.1
                invariant
                    top_left.1 <= y,
                    y <= bot_right.1 || y == top_left.1,
                    x < bot_right.0,
                    self.wf(),
                    self.img_ptr == start.img_ptr,
                    self.bits_per_pixel == start.bits_per_pixel,
                    self.size_line == start.size_line,
                    self.endian == start.endian,
                    self.pixel_count == start.pixel_count,
                    self.width == start.width,
                    self.height == start.height,
                    self.data@ == fill_column(
                        column.data@,
                        start.pixel_count as int,
                        start.size_line as int,
                        start.bits_per_pixel as int,
                        x as int,
                        top_left.1 as int,
                        y as int,
                        color,
                    ),
                decreases bot_right.1 - y,
            {
                self.put_pixel(x, y, color);
                y += 1;
            }
            assert(self.data@ == fill_column(
                column.data@,
                start.pixel_count as int,
                start.size_line as int,
                start.bits_per_pixel as int,
                x as int,
                top_left.1 as int,
                bot_right.1 as int,
                color,
            ));
            x += 1;
        }
        assert(self.data@ == fill_rect(
            start.data@,
            start.pixel_count as int,
            start.size_line as int,
            start.bits_per_pixel as int,
            top_left.0 as int,
            bot_right.0 as int,
            top_left.1 as int,
            bot_right.1 as int,
            color,
        ));
    }
}

/// Reads the layout of an image into the three places given, and hands out
/// the bytes of its buffer.
pub fn mlx_get_data_addr<'a>(
    img: &'a MlxImage,
    bits_per_pixel: &mut i32,
    size_line: &mut i32,
    endian: &mut i32,
) -> (data: &'a Vec<u8>)
    ensures
        data@ == img.bytes(),
        *final(bits_per_pixel) == img.bpp(),
        *final(size_line) == img.stride(),
        *final(endian) == img.byte_order(),
{
    *bits_per_pixel = img.bits_per_pixel;
    *size_line = img.size_line;
    *endian = img.endian;
    &img.data
}

/// A second destroy of an image releases nothing and changes nothing.
pub proof fn lemma_image_destroy_once(image: MlxImage, first: u64, second: u64)
    requires
        first != 0,
    ensures
        image.destroyed(first).handle() == 0,
        image.destroyed(first).released(second).is_none(),
        image.destroyed(first).destroyed(second) == image.destroyed(first),
        image.destroyed(first).bytes() == image.bytes(),
{
}

} // verus!
