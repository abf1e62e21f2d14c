//! The frame buffer that the video chip draws into.

use vstd::prelude::*;

verus! {

/// A pixel: red, green and blue.
pub type Pixel = (u8, u8, u8);

/// A grid of pixels, stored row by row.
#[derive(Clone)]
pub struct Screen {
    width: u32,
    height: u32,
    pixels: Vec<Pixel>,
}

impl View for Screen {
    type V = Seq<Pixel>;

    /// The pixels, row by row.
    closed spec fn view(&self) -> Seq<Pixel> {
        self.pixels@
    }
}

/// The colour bytes of `pixels`, three for each pixel.
pub open spec fn flattened(pixels: Seq<Pixel>) -> Seq<u8> {
    Seq::new(
        3 * pixels.len(),
        |i: int|
            if i % 3 == 0 {
                pixels[i / 3].0
            } else if i % 3 == 1 {
                pixels[i / 3].1
            } else {
                pixels[i / 3].2
            },
    )
}

impl Screen {
    /// The number of pixels in a row.
    pub closed spec fn spec_width(&self) -> u32 {
        self.width
    }

    /// The number of rows.
    pub closed spec fn spec_height(&self) -> u32 {
        self.height
    }

    pub open spec fn wf(&self) -> bool {
        self@.len() == self.spec_width() * self.spec_height()
    }

    /// Where the pixel in column `x` of row `y` is stored.
    pub open spec fn index(&self, x: int, y: int) -> int {
        y * self.spec_width() + x
    }

    /// Whether `index(x, y)` is a pixel of the screen.
    pub open spec fn holds(&self, x: int, y: int) -> bool {
        0 <= x && 0 <= y && self.index(x, y) < self@.len()
    }

    /// A black screen of `w` by `h` pixels.
    pub fn new(w: u32, h: u32) -> (screen: Screen)
        requires
            w * h <= u32::MAX,
        ensures
            screen.wf(),
            screen.spec_width() == w,
            screen.spec_height() == h,
            forall|i: int| 0 <= i < w * h ==> screen@[i] == (0u8, 0u8, 0u8),
    {
        let count: u32 = w * h;
        let mut p: Vec<Pixel> = Vec::new();
        let mut i: u32 = 0;
        while i < count
            invariant
                i <= count,
                p@.len() == i,
                forall|j: int| 0 <= j < i ==> p@[j] == (0u8, 0u8, 0u8),
            decreases count - i,
        {
            p.push((0, 0, 0));
            i += 1;
        }
        Screen { width: w, height: h, pixels: p }
    }

    #[verifier::when_used_as_spec(spec_width)]
    pub fn width(&self) -> (w: u32)
        ensures
            w == self.spec_width(),
    {
        self.width
    }

    #[verifier::when_used_as_spec(spec_height)]
    pub fn height(&self) -> (h: u32)
        ensures
            h == self.spec_height(),
    {
        self.height
    }

    /// Whether `set_pixel_at(x, y, ..)` finds its pixel.
    pub fn contains(&self, x: usize, y: usize) -> (inside: bool)
        requires
            self.wf(),
        ensures
            inside == self.holds(x as int, y as int),
    {
        let w = self.width as usize;
        if w == 0 {
            assert(self@.len() == 0) by (nonlinear_arith)
                requires
                    self@.len() == self.spec_width() * self.spec_height(),
                    self.spec_width() == 0,
            ;
            false
        } else if y > self.pixels.len() / w {
            assert(y * w + x >= self@.len()) by (nonlinear_arith)
                requires
                    y > self@.len() / (w as nat),
                    w > 0,
                    x >= 0,
            ;
            false
        } else {
            assert(y * w <= self@.len()) by (nonlinear_arith)
                requires
                    y <= self@.len() / (w as nat),
                    w > 0,
            ;
            let row = y * w;
            x < self.pixels.len() - row
        }
    }

    /// Sets the pixel in column `x` of row `y`.
    pub fn set_pixel_at(&mut self, x: usize, y: usize, pixel: Pixel)
        requires
            old(self).holds(x as int, y as int),
        ensures
            final(self)@ == old(self)@.update(old(self).index(x as int, y as int), pixel),
            final(self).spec_width() == old(self).spec_width(),
            final(self).spec_height() == old(self).spec_height(),
    {
        let count = self.pixels.len();
        assert(y * self.width <= usize::MAX) by (nonlinear_arith)
            requires
                y * self.width + x < count,
                count <= usize::MAX,
                x >= 0,
        ;
        let index = y * (self.width as usize) + x;
        self.pixels.set(index, pixel);
    }

    /// The pixels as bytes, in the order red, green, blue.
    pub fn pixel_data(&self) -> (data: Vec<u8>)
        ensures
            data@ == flattened(self@),
    {
        let mut data: Vec<u8> = Vec::new();
        let mut i: usize = 0;
        while i < self.pixels.len()
            invariant
                i <= self.pixels@.len(),
                data@.len() == 3 * i,
                forall|j: int| 0 <= j < 3 * i ==> data@[j] == flattened(self@)[j],
            decreases self.pixels@.len() - i,
        {
            data.push(self.pixels[i].0);
            data.push(self.pixels[i].1);
            data.push(self.pixels[i].2);
            i += 1;
        }
        assert(data@ =~= flattened(self@));
        data
    }
}

} // verus!
