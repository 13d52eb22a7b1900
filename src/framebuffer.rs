use vstd::prelude::*;

verus! {

/// A `width` by `height` grid of packed 24-bit colours, stored row by row.
/// Drawing sets the pixel at `(x, y)` to the current colour.
pub struct Framebuffer {
    width: usize,
    height: usize,
    buffer: Vec<u32>,
    background_color: u32,
    current_color: u32,
}

/// Where the pixel at column `x` of row `y` lies in a row-major buffer.
pub open spec fn pixel_index(width: int, x: int, y: int) -> int {
    y * width + x
}

impl Framebuffer {
    pub closed spec fn spec_width(&self) -> nat {
        self.width as nat
    }

    pub closed spec fn spec_height(&self) -> nat {
        self.height as nat
    }

    /// The pixels, row after row.
    pub closed spec fn pixels(&self) -> Seq<u32> {
        self.buffer@
    }

    pub closed spec fn spec_background_color(&self) -> u32 {
        self.background_color
    }

    pub closed spec fn spec_current_color(&self) -> u32 {
        self.current_color
    }

    /// The buffer holds exactly one pixel per grid cell.
    pub open spec fn wf(&self) -> bool {
        self.pixels().len() == self.spec_width() * self.spec_height()
    }

    /// A black buffer; the drawing colour starts as white.
    pub fn new(width: usize, height: usize) -> (fb: Framebuffer)
        requires
            width * height <= usize::MAX,
        ensures
            fb.wf(),
            fb.spec_width() == width,
            fb.spec_height() == height,
            forall|i: int| 0 <= i < fb.pixels().len() ==> fb.pixels()[i] == 0,
            fb.spec_background_color() == 0,
            fb.spec_current_color() == 0xFFFFFF,
    {
        let n: usize = width * height;
        let mut buffer: Vec<u32> = Vec::new();
        let mut i: usize = 0;
        while i < n
            invariant
                i <= n,
                buffer@.len() == i,
                forall|j: int| 0 <= j < i ==> buffer@[j] == 0,
            decreases n - i,
        {
            buffer.push(0);
            i = i + 1;
        }
        Framebuffer { width, height, buffer, background_color: 0, current_color: 0xFFFFFF }
    }

    /// Paints every pixel with the background colour.
    pub fn clear(&mut self)
        requires
            old(self).wf(),
        ensures
            final(self).wf(),
            final(self).spec_width() == old(self).spec_width(),
            final(self).spec_height() == old(self).spec_height(),
            final(self).spec_background_color() == old(self).spec_background_color(),
            final(self).spec_current_color() == old(self).spec_current_color(),
            final(self).pixels().len() == old(self).pixels().len(),
            forall|i: int|
                0 <= i < final(self).pixels().len() ==> final(self).pixels()[i]
                    == old(self).spec_background_color(),
    {
        let n = self.buffer.len();
        let mut i: usize = 0;
        while i < n
            invariant
                i <= n,
                n == old(self).buffer@.len(),
                self.buffer@.len() == n,
                self.width == old(self).width,
                self.height == old(self).height,
                self.background_color == old(self).background_color,
                self.current_color == old(self).current_color,
                forall|j: int| 0 <= j < i ==> self.buffer@[j] == self.background_color,
            decreases n - i,
        {
            let c = self.background_color;
            self.buffer.set(i, c);
            i = i + 1;
        }
    }

    /// Sets the pixel at `(x, y)` to the current colour; a point outside the
    /// grid leaves the buffer as it was.
    pub fn point(&mut self, x: usize, y: usize)
        requires
            old(self).wf(),
        ensures
            final(self).wf(),
            final(self).spec_width() == old(self).spec_width(),
            final(self).spec_height() == old(self).spec_height(),
            final(self).spec_background_color() == old(self).spec_background_color(),
            final(self).spec_current_color() == old(self).spec_current_color(),
            x < old(self).spec_width() && y < old(self).spec_height() ==> final(self).pixels()
                == old(self).pixels().update(
                pixel_index(old(self).spec_width() as int, x as int, y as int),
                old(self).spec_current_color(),
            ),
            !(x < old(self).spec_width() && y < old(self).spec_height()) ==> final(self).pixels()
                == old(self).pixels(),
    {
        if x < self.width && y < self.height {
            let w = self.width;
            let h = self.height;
            assert(y * w <= (h - 1) * w && y * w + x < w * h) by (nonlinear_arith)
                requires
                    x < w,
                    y < h,
            ;
            let n = self.buffer.len();
            assert(n == w * h);
            let c = self.current_color;
            self.buffer.set(y * w + x, c);
        }
    }

    pub fn set_background_color(&mut self, color: u32)
        ensures
            final(self).spec_width() == old(self).spec_width(),
            final(self).spec_height() == old(self).spec_height(),
            final(self).pixels() == old(self).pixels(),
            final(self).spec_background_color() == color,
            final(self).spec_current_color() == old(self).spec_current_color(),
    {
        self.background_color = color;
    }

    pub fn set_current_color(&mut self, color: u32)
        ensures
            final(self).spec_width() == old(self).spec_width(),
            final(self).spec_height() == old(self).spec_height(),
            final(self).pixels() == old(self).pixels(),
            final(self).spec_background_color() == old(self).spec_background_color(),
            final(self).spec_current_color() == color,
    {
        self.current_color = color;
    }

    pub fn width(&self) -> (w: usize)
        ensures
            w == self.spec_width(),
    {
        self.width
    }

    pub fn height(&self) -> (h: usize)
        ensures
            h == self.spec_height(),
    {
        self.height
    }

    /// The pixels, row after row, for presenting on a display.
    pub fn buffer(&self) -> (b: &Vec<u32>)
        ensures
            b@ == self.pixels(),
    {
        &self.buffer
    }

    pub fn current_color(&self) -> (c: u32)
        ensures
            c == self.spec_current_color(),
    {
        self.current_color
    }
}

} // verus!
