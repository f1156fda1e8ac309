use vstd::prelude::*;
use crate::grid::GridError;

verus! {

/// Abstract contents of a pixel frame.
pub struct FrameView {
    pub width: nat,
    pub height: nat,
    pub bytes_per_pixel: nat,
    pub bytes: Seq<u8>,
}

/// Byte offset of pixel `(col, row)` in a frame `width` pixels wide.
pub open spec fn pixel_offset(width: int, bytes_per_pixel: int, col: int, row: int) -> int {
    (row * width + col) * bytes_per_pixel
}

/// `after` is `before` with the four bytes at `offset` replaced by `px`.
pub open spec fn writes_pixel(before: Seq<u8>, after: Seq<u8>, offset: int, px: Seq<u8>) -> bool {
    &&& after.len() == before.len()
    &&& forall|j: int|
        0 <= j < after.len() ==> #[trigger] after[j] == if offset <= j < offset + 4 {
            px[j - offset]
        } else {
            before[j]
        }
}

/// The CPU-side backing buffer of a streaming texture: `width * height` pixels of
/// `bytes_per_pixel` bytes each, rows one after another, sent to the render sink
/// once per presented frame.
#[derive(Debug)]
pub struct PixelFrame {
    width: usize,
    height: usize,
    bytes_per_pixel: usize,
    buf: Vec<u8>,
}

impl View for PixelFrame {
    type V = FrameView;

    closed spec fn view(&self) -> FrameView {
        FrameView {
            width: self.width as nat,
            height: self.height as nat,
            bytes_per_pixel: self.bytes_per_pixel as nat,
            bytes: self.buf@,
        }
    }
}

impl PixelFrame {
    /// The buffer holds exactly one slot per pixel.
    pub open spec fn wf(&self) -> bool {
        &&& self@.bytes.len() == self@.width * self@.height * self@.bytes_per_pixel
        &&& self@.width * self@.bytes_per_pixel <= usize::MAX
        &&& self@.width * self@.height <= usize::MAX
    }

    /// A zero-filled frame, or `None` when its pixel count, byte size or row size
    /// overflows `usize`.
    pub fn new(width: usize, height: usize, bytes_per_pixel: usize) -> (r: Option<PixelFrame>)
        ensures
            r is Some <==> {
                &&& width * height <= usize::MAX
                &&& width * height * bytes_per_pixel <= usize::MAX
                &&& width * bytes_per_pixel <= usize::MAX
            },
            r matches Some(f) ==> {
                &&& f.wf()
                &&& f@.width == width
                &&& f@.height == height
                &&& f@.bytes_per_pixel == bytes_per_pixel
                &&& forall|j: int| 0 <= j < f@.bytes.len() ==> #[trigger] f@.bytes[j] == 0
            },
    {
        let pixels = match width.checked_mul(height) {
            Some(p) => p,
            None => return None,
        };
        let size = match pixels.checked_mul(bytes_per_pixel) {
            Some(s) => s,
            None => return None,
        };
        if width.checked_mul(bytes_per_pixel).is_none() {
            return None;
        }
        let buf: Vec<u8> = vec![0u8; size];
        Some(PixelFrame { width, height, bytes_per_pixel, buf })
    }

    /// Bytes from the start of one row to the start of the next.
    pub fn pitch(&self) -> (r: usize)
        requires
            self.wf(),
        ensures
            r == self@.width * self@.bytes_per_pixel,
    {
        self.width * self.bytes_per_pixel
    }

    /// Writes the four bytes of one pixel value at `(col, row)`. Fails with
    /// `IndexOutOfBounds`, and changes nothing, when the pixel is outside the frame
    /// or its four bytes run past the end of the buffer.
    pub fn set_pixel(&mut self, col: usize, row: usize, px: [u8; 4]) -> (r: Result<(), GridError>)
        requires
            old(self).wf(),
        ensures
            final(self).wf(),
            final(self)@.width == old(self)@.width,
            final(self)@.height == old(self)@.height,
            final(self)@.bytes_per_pixel == old(self)@.bytes_per_pixel,
            r is Ok <==> {
                &&& col < old(self)@.width
                &&& row < old(self)@.height
                &&& pixel_offset(old(self)@.width as int, old(self)@.bytes_per_pixel as int, col as int, row as int) + 4
                    <= old(self)@.bytes.len()
            },
            r is Ok ==> writes_pixel(
                old(self)@.bytes,
                final(self)@.bytes,
                pixel_offset(old(self)@.width as int, old(self)@.bytes_per_pixel as int, col as int, row as int),
                px@,
            ),
            r is Err ==> final(self)@ == old(self)@,
            r matches Err(e) ==> e == GridError::IndexOutOfBounds,
    {
        if col >= self.width || row >= self.height {
            return Err(GridError::IndexOutOfBounds);
        }
        if self.bytes_per_pixel == 0 {
            proof {
                let (w, h) = (self.width as int, self.height as int);
                assert(w * h * 0 == 0) by (nonlinear_arith);
            }
            return Err(GridError::IndexOutOfBounds);
        }
        proof {
            let (w, h, b) = (self.width as int, self.height as int, self.bytes_per_pixel as int);
            let (c, rw) = (col as int, row as int);
            assert(0 <= rw * w + c < w * h && (rw * w + c) * b <= w * h * b) by (nonlinear_arith)
                requires
                    0 <= c < w,
                    0 <= rw < h,
                    b > 0,
            ;
            assert(self.buf@.len() == w * h * b);
        }
        let n = self.buf.len();
        let offset = (row * self.width + col) * self.bytes_per_pixel;
        if offset > n || n - offset < 4 {
            return Err(GridError::IndexOutOfBounds);
        }
        let ghost before = self.buf@;
        let mut k: usize = 0;
        while k < 4
            invariant
                n == self.buf@.len(),
                offset + 4 <= n,
                self.wf(),
                self.width == old(self).width,
                self.height == old(self).height,
                self.bytes_per_pixel == old(self).bytes_per_pixel,
                self.buf@.len() == before.len(),
                k <= 4,
                forall|j: int|
                    0 <= j < self.buf@.len() ==> #[trigger] self.buf@[j] == if offset <= j < offset + k {
                        px@[j - offset]
                    } else {
                        before[j]
                    },
            decreases 4 - k,
        {
            self.buf.set(offset + k, px[k]);
            k = k + 1;
        }
        Ok(())
    }

    /// The frame's bytes, ready for the render sink.
    pub fn bytes(&self) -> (r: &Vec<u8>)
        ensures
            r@ == self@.bytes,
    {
        &self.buf
    }

    pub fn width(&self) -> (r: usize)
        ensures
            r == self@.width,
    {
        self.width
    }

    pub fn height(&self) -> (r: usize)
        ensures
            r == self@.height,
    {
        self.height
    }

    pub fn bytes_per_pixel(&self) -> (r: usize)
        ensures
            r == self@.bytes_per_pixel,
    {
        self.bytes_per_pixel
    }
}

} // verus!
