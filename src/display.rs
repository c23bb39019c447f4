use vstd::prelude::*;

use crate::memory::BANK;

verus! {

/// One pixel: red, green and blue intensities.
#[derive(Debug, Clone, Copy, PartialEq, Eq, Structural)]
pub struct Rgb {
    pub r: u8,
    pub g: u8,
    pub b: u8,
}

/// Pixels of one frame: 256 rows of 256.
pub const PIXELS: usize = BANK;

/// Step between two levels of a channel in the colour cube.
pub const LEVEL: u8 = 0x33;

/// Number of byte values that name a colour of the 6 x 6 x 6 cube.
pub const CUBE: u8 = 216;

/// The colour of an indexed byte: below `CUBE` its base-6 digits give the levels of
/// red, green and blue; the values above are black.
pub open spec fn color_of(v: u8) -> Rgb {
    if v < 216 {
        Rgb {
            r: (51 * (v / 36)) as u8,
            g: (51 * ((v / 6) % 6)) as u8,
            b: (51 * (v % 6)) as u8,
        }
    } else {
        Rgb { r: 0, g: 0, b: 0 }
    }
}

/// The image of a run of indexed bytes, pixel by pixel.
pub open spec fn rendered(data: Seq<u8>) -> Seq<Rgb> {
    Seq::new(data.len(), |i: int| color_of(data[i]))
}

/// The colour of one indexed byte.
pub fn palette(v: u8) -> (c: Rgb)
    ensures
        c == color_of(v),
{
    if v < CUBE {
        Rgb { r: LEVEL * (v / 36), g: LEVEL * (v / 6 % 6), b: LEVEL * (v % 6) }
    } else {
        Rgb { r: 0, g: 0, b: 0 }
    }
}

/// Turns a video bank into pixels.
pub fn render(data: &[u8]) -> (r: Vec<Rgb>)
    ensures
        r@ == rendered(data@),
{
    let mut r: Vec<Rgb> = Vec::with_capacity(data.len());
    let mut i: usize = 0;
    while i < data.len()
        invariant
            i <= data@.len(),
            r@ == rendered(data@.subrange(0, i as int)),
        decreases data@.len() - i,
    {
        r.push(palette(data[i]));
        i = i + 1;
        assert(r@ =~= rendered(data@.subrange(0, i as int)));
    }
    assert(data@.subrange(0, i as int) =~= data@);
    r
}

/// The frame that is shown: a whole image, replaced at once.
pub struct Screen {
    pixels: Vec<Rgb>,
}

impl View for Screen {
    type V = Seq<Rgb>;

    closed spec fn view(&self) -> Seq<Rgb> {
        self.pixels@
    }
}

impl Screen {
    /// The frame holds one pixel per byte of a bank.
    pub open spec fn wf(&self) -> bool {
        self@.len() == PIXELS
    }

    /// A black frame.
    pub fn new() -> (s: Screen)
        ensures
            s.wf(),
            s@ == Seq::new(PIXELS as nat, |i: int| Rgb { r: 0, g: 0, b: 0 }),
    {
        let black = Rgb { r: 0, g: 0, b: 0 };
        let mut pixels: Vec<Rgb> = Vec::with_capacity(PIXELS);
        let mut i: usize = 0;
        while i < PIXELS
            invariant
                i <= PIXELS,
                pixels@ == Seq::new(i as nat, |j: int| black),
            decreases PIXELS - i,
        {
            pixels.push(black);
            i = i + 1;
            assert(pixels@ =~= Seq::new(i as nat, |j: int| black));
        }
        Screen { pixels }
    }

    /// Paints every pixel of the frame with `color`; the frame keeps its size.
    pub fn fill(&mut self, color: Rgb)
        ensures
            final(self)@ == Seq::new(old(self)@.len(), |i: int| color),
    {
        let n = self.pixels.len();
        let mut i: usize = 0;
        while i < n
            invariant
                n == old(self)@.len(),
                self@.len() == n,
                i <= n,
                forall|j: int| 0 <= j < i ==> self@[j] == color,
            decreases n - i,
        {
            self.pixels.set(i, color);
            i = i + 1;
        }
        assert(self@ =~= Seq::new(old(self)@.len(), |i: int| color));
    }

    /// Replaces the frame with the image of `data`.
    pub fn update(&mut self, data: &[u8])
        ensures
            final(self)@ == rendered(data@),
    {
        self.pixels = render(data);
    }

    /// The pixels, row by row.
    pub fn pixels(&self) -> (r: &[Rgb])
        ensures
            r@ == self@,
    {
        self.pixels.as_slice()
    }
}

} // verus!
