use vstd::prelude::*;

use crate::error::Error;

verus! {

/// A captured frame or a cropped raster: `width * height` pixels, four
/// bytes per pixel (RGBA), row-major, left to right, top to bottom.
pub struct Frame {
    pub width: u32,
    pub height: u32,
    pub data: Vec<u8>,
}

/// A raster with the alpha channel already stripped: `width * height`
/// pixels, three bytes per pixel (RGB), in the same row-major order.
pub struct RgbRaster {
    pub width: u32,
    pub height: u32,
    pub data: Vec<u8>,
}

impl RgbRaster {
    /// Three bytes for every pixel, nothing more and nothing less.
    pub open spec fn wf(&self) -> bool {
        self.data@.len() == 3 * self.width * self.height
    }
}

/// A requested sub-rectangle of a frame, in pixel coordinates.
pub struct Region {
    pub x: u32,
    pub y: u32,
    pub width: u32,
    pub height: u32,
}

impl Region {
    /// A region is acceptable for a frame exactly when neither edge of
    /// the rectangle reaches past the frame; nothing is ever clamped.
    pub open spec fn fits(&self, frame_width: int, frame_height: int) -> bool {
        &&& self.x + self.width <= frame_width
        &&& self.y + self.height <= frame_height
    }
}

impl Frame {
    /// Four bytes for every pixel, nothing more and nothing less.
    pub open spec fn wf(&self) -> bool {
        self.data@.len() == 4 * self.width * self.height
    }

    /// Builds a frame from a raw RGBA buffer, rejecting a buffer whose
    /// length does not match the stated dimensions.
    pub fn new(width: u32, height: u32, data: Vec<u8>) -> (r: Result<Frame, Error>)
        ensures
            r is Ok <==> data@.len() == 4 * width * height,
            r matches Ok(f) ==> f.width == width && f.height == height && f.data@ == data@
                && f.wf(),
            r matches Err(e) ==> e == Error::ImageConstructionFailed,
    {
        proof {
            assert(4 * (width as int) * (height as int) < u128::MAX) by (nonlinear_arith)
                requires
                    width <= u32::MAX,
                    height <= u32::MAX,
            ;
        }
        let expected: u128 = 4u128 * (width as u128) * (height as u128);
        if (data.len() as u128) == expected {
            Ok(Frame { width, height, data })
        } else {
            Err(Error::ImageConstructionFailed)
        }
    }
}

/// The bytes of row `r` of the sub-rectangle at `(x, y)` of width `w`,
/// read out of a frame of width `fw` whose bytes are `fd`.
pub open spec fn crop_row(fd: Seq<u8>, fw: int, x: int, y: int, w: int, r: int) -> Seq<u8> {
    fd.subrange(4 * ((y + r) * fw + x), 4 * ((y + r) * fw + x) + 4 * w)
}

/// The first `rows` rows of that sub-rectangle, in order.
pub open spec fn crop_rows(fd: Seq<u8>, fw: int, x: int, y: int, w: int, rows: int) -> Seq<u8>
    decreases rows,
{
    if rows <= 0 {
        Seq::empty()
    } else {
        crop_rows(fd, fw, x, y, w, rows - 1) + crop_row(fd, fw, x, y, w, rows - 1)
    }
}

/// Exactly the bytes of the requested sub-rectangle of a frame, in the
/// same per-pixel layout as the source.
pub open spec fn crop_bytes(fd: Seq<u8>, fw: int, reg: Region) -> Seq<u8> {
    crop_rows(fd, fw, reg.x as int, reg.y as int, reg.width as int, reg.height as int)
}

proof fn lemma_crop_rows_len(fd: Seq<u8>, fw: int, fh: int, x: int, y: int, w: int, rows: int)
    requires
        fd.len() == 4 * fw * fh,
        0 <= x,
        0 <= y,
        0 <= w,
        0 <= rows,
        x + w <= fw,
        y + rows <= fh,
    ensures
        crop_rows(fd, fw, x, y, w, rows).len() == 4 * w * rows,
    decreases rows,
{
    if rows <= 0 {
        assert(4 * w * rows == 0) by (nonlinear_arith)
            requires
                rows == 0,
        ;
    } else {
        lemma_crop_rows_len(fd, fw, fh, x, y, w, rows - 1);
        let r = rows - 1;
        assert(0 <= 4 * ((y + r) * fw + x) && 4 * ((y + r) * fw + x) + 4 * w <= fd.len())
            by (nonlinear_arith)
            requires
                fd.len() == 4 * fw * fh,
                0 <= x,
                0 <= y,
                0 <= w,
                0 <= r,
                x + w <= fw,
                y + r + 1 <= fh,
        ;
        assert(crop_row(fd, fw, x, y, w, r).len() == 4 * w);
        assert(crop_rows(fd, fw, x, y, w, rows).len() == 4 * w * r + 4 * w);
        assert(4 * w * r + 4 * w == 4 * w * rows) by (nonlinear_arith)
            requires
                r == rows - 1,
        ;
    }
}

proof fn lemma_crop_rows_index(
    fd: Seq<u8>,
    fw: int,
    fh: int,
    x: int,
    y: int,
    w: int,
    rows: int,
    r: int,
    k: int,
)
    requires
        fd.len() == 4 * fw * fh,
        0 <= x,
        0 <= y,
        x + w <= fw,
        y + rows <= fh,
        0 <= r < rows,
        0 <= k < 4 * w,
    ensures
        crop_rows(fd, fw, x, y, w, rows)[4 * w * r + k] == fd[4 * ((y + r) * fw + x) + k],
    decreases rows,
{
    lemma_crop_rows_len(fd, fw, fh, x, y, w, rows - 1);
    if r == rows - 1 {
        assert(0 <= 4 * ((y + r) * fw + x) && 4 * ((y + r) * fw + x) + 4 * w <= fd.len())
            by (nonlinear_arith)
            requires
                fd.len() == 4 * fw * fh,
                0 <= x,
                0 <= y,
                0 <= w,
                0 <= r,
                x + w <= fw,
                y + r + 1 <= fh,
        ;
        assert(crop_rows(fd, fw, x, y, w, rows)[4 * w * r + k] == crop_row(fd, fw, x, y, w, r)[k]);
    } else {
        lemma_crop_rows_index(fd, fw, fh, x, y, w, rows - 1, r, k);
        assert(0 <= 4 * w * r + k < 4 * w * (rows - 1)) by (nonlinear_arith)
            requires
                0 <= k < 4 * w,
                0 <= r < rows - 1,
        ;
    }
}

/// A cropped raster holds exactly the pixels of the requested
/// sub-rectangle: channel `ch` of the pixel at `(col, row)` of the
/// output is channel `ch` of the pixel at `(x + col, y + row)` of the
/// source frame.
pub proof fn lemma_crop_pixel(fd: Seq<u8>, fw: int, fh: int, reg: Region, row: int, col: int, ch: int)
    requires
        fd.len() == 4 * fw * fh,
        reg.fits(fw, fh),
        0 <= row < reg.height,
        0 <= col < reg.width,
        0 <= ch < 4,
    ensures
        crop_bytes(fd, fw, reg)[4 * (row * reg.width + col) + ch]
            == fd[4 * ((reg.y + row) * fw + (reg.x + col)) + ch],
{
    let x = reg.x as int;
    let y = reg.y as int;
    let w = reg.width as int;
    let k = 4 * col + ch;
    lemma_crop_rows_index(fd, fw, fh, x, y, w, reg.height as int, row, k);
    assert(4 * w * row + k == 4 * (row * w + col) + ch) by (nonlinear_arith)
        requires
            k == 4 * col + ch,
    ;
    assert(4 * ((y + row) * fw + x) + k == 4 * ((y + row) * fw + (x + col)) + ch)
        by (nonlinear_arith)
        requires
            k == 4 * col + ch,
    ;
}

/// Produces a new raster holding exactly the requested sub-rectangle of
/// the frame, or rejects the request when the rectangle reaches past an
/// edge of the frame.  Out-of-range requests are errors, never clamped.
#[verifier::loop_isolation(false)]
pub fn crop(frame: &Frame, region: &Region) -> (r: Result<Frame, Error>)
    requires
        frame.wf(),
    ensures
        r is Ok <==> region.fits(frame.width as int, frame.height as int),
        r matches Err(e) ==> e == Error::RegionOutOfBounds,
        r matches Ok(out) ==> out.width == region.width && out.height == region.height
            && out.wf()
            && out.data@ == crop_bytes(frame.data@, frame.width as int, *region),
{
    if (region.x as u64) + (region.width as u64) > (frame.width as u64)
        || (region.y as u64) + (region.height as u64) > (frame.height as u64) {
        return Err(Error::RegionOutOfBounds);
    }
    let ghost fd = frame.data@;
    let ghost fw = frame.width as int;
    let ghost fh = frame.height as int;
    let ghost x = region.x as int;
    let ghost y = region.y as int;
    let ghost w = region.width as int;
    let flen: usize = frame.data.len();
    let mut out: Vec<u8> = Vec::new();
    let mut row: u32 = 0;
    while row < region.height
        invariant
            row <= region.height,
            out@ == crop_rows(fd, fw, x, y, w, row as int),
        decreases region.height - row,
    {
        proof {
            assert(4 * ((y + row) * fw + x) + 4 * w <= 4 * fw * fh && 4 * w <= 4 * fw * fh)
                by (nonlinear_arith)
                requires
                    0 <= x,
                    0 <= y,
                    0 <= w,
                    0 <= row,
                    x + w <= fw,
                    y + row < fh,
            ;
        }
        let base: usize = 4 * (((region.y + row) as usize) * (frame.width as usize)
            + (region.x as usize));
        let row_len: usize = 4 * (region.width as usize);
        let mut j: usize = 0;
        while j < row_len
            invariant
                j <= row_len,
                out@ == crop_rows(fd, fw, x, y, w, row as int) + fd.subrange(
                    base as int,
                    base + j,
                ),
            decreases row_len - j,
        {
            out.push(frame.data[base + j]);
            proof {
                assert(fd.subrange(base as int, base + j + 1) =~= fd.subrange(
                    base as int,
                    base + j,
                ).push(fd[base + j]));
            }
            j += 1;
        }
        proof {
            assert(fd.subrange(base as int, base + row_len) =~= crop_row(fd, fw, x, y, w,
                row as int));
        }
        row += 1;
    }
    proof {
        lemma_crop_rows_len(fd, fw, fh, x, y, w, region.height as int);
    }
    Ok(Frame { width: region.width, height: region.height, data: out })
}

} // verus!
