use vstd::prelude::*;

verus! {

/// One rendered image: `width * height` packed RGBA pixels, row by row,
/// stamped with its position in the capture.
#[derive(Clone, Debug)]
pub struct Frame {
    pub width: u32,
    pub height: u32,
    pub seq: u64,
    pub pixels: Vec<u32>,
}

proof fn lemma_area_fits(width: u32, height: u32)
    ensures
        0 <= width as int * height as int <= u64::MAX,
{
    assert(0 <= width as int * height as int <= u32::MAX as int * u32::MAX as int)
        by (nonlinear_arith);
}

impl Frame {
    /// The pixel buffer covers the whole rectangle.
    pub open spec fn wf(&self) -> bool {
        self.pixels@.len() == self.width as int * self.height as int
    }

    /// A frame from a pixel buffer, or `None` when the buffer does not hold
    /// exactly `width * height` pixels.
    pub fn from_pixels(width: u32, height: u32, seq: u64, pixels: Vec<u32>) -> (r: Option<Frame>)
        ensures
            pixels@.len() == width as int * height as int <==> r is Some,
            r matches Some(f) ==> f.wf() && f.width == width && f.height == height && f.seq
                == seq && f.pixels@ == pixels@,
    {
        proof {
            lemma_area_fits(width, height);
        }
        let expected: u64 = width as u64 * height as u64;
        if pixels.len() as u64 == expected {
            Some(Frame { width, height, seq, pixels })
        } else {
            None
        }
    }

    /// A frame of the given size with every pixel set to `color`.
    pub fn filled(width: u32, height: u32, seq: u64, color: u32) -> (r: Frame)
        requires
            width as int * height as int <= usize::MAX,
        ensures
            r.wf(),
            r.width == width,
            r.height == height,
            r.seq == seq,
            forall|i: int| 0 <= i < r.pixels@.len() ==> r.pixels@[i] == color,
    {
        proof {
            lemma_area_fits(width, height);
        }
        let n: usize = (width as u64 * height as u64) as usize;
        let mut pixels: Vec<u32> = Vec::with_capacity(n);
        let mut i: usize = 0;
        while i < n
            invariant
                i <= n,
                n == width as int * height as int,
                pixels@.len() == i,
                forall|j: int| 0 <= j < i ==> pixels@[j] == color,
            decreases n - i,
        {
            pixels.push(color);
            i = i + 1;
        }
        Frame { width, height, seq, pixels }
    }
}

} // verus!
