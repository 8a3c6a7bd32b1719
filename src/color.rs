//! Iteration counts to RGBA pixels.
//!
//! A [`ColorRamp`] holds one colour for each escape count below the limit;
//! a discrete palette and a continuous gradient both reduce to one. Interior
//! pixels (count equal to the limit) are opaque black whatever the ramp.
use vstd::prelude::*;

verus! {

#[derive(Clone, Copy, PartialEq, Eq, Debug, Structural)]
pub struct Rgb {
    pub r: u8,
    pub g: u8,
    pub b: u8,
}

#[derive(Clone, Copy, PartialEq, Eq, Debug, Structural)]
pub struct Rgba {
    pub r: u8,
    pub g: u8,
    pub b: u8,
    pub a: u8,
}

pub open spec fn opaque(c: Rgb) -> Rgba {
    Rgba { r: c.r, g: c.g, b: c.b, a: 255 }
}

pub open spec fn black() -> Rgba {
    Rgba { r: 0, g: 0, b: 0, a: 255 }
}

/// The colour of a pixel whose escape count is `iteration`.
pub open spec fn pixel_color(iteration: int, limit: int, ramp: Seq<Rgb>) -> Rgba {
    if iteration == limit {
        black()
    } else {
        opaque(ramp[iteration])
    }
}

/// The palette entry for a level, clamped to the last entry.
pub open spec fn clamped_entry(palette: Seq<Rgb>, level: int) -> Rgb {
    if level < palette.len() {
        palette[level]
    } else {
        palette[palette.len() - 1]
    }
}

/// The four bytes of pixel `i` of a frame.
pub open spec fn frame_pixel(frame: Seq<u8>, i: int) -> Rgba {
    Rgba { r: frame[4 * i], g: frame[4 * i + 1], b: frame[4 * i + 2], a: frame[4 * i + 3] }
}

/// Colours for the escape counts `0 .. len`; fixed once built.
pub struct ColorRamp {
    colors: Vec<Rgb>,
}

impl View for ColorRamp {
    type V = Seq<Rgb>;

    closed spec fn view(&self) -> Seq<Rgb> {
        self.colors@
    }
}

impl ColorRamp {
    /// A ramp of the given colours, entry `i` for escape count `i`.
    pub fn from_colors(colors: Vec<Rgb>) -> (r: ColorRamp)
        ensures
            r@ == colors@,
    {
        ColorRamp { colors }
    }

    /// A discrete ramp: escape count `i` takes the palette entry of
    /// `levels[i]`, clamped to the palette's last entry.
    pub fn discrete(palette: &Vec<Rgb>, levels: &Vec<u32>) -> (r: ColorRamp)
        requires
            palette@.len() >= 1,
        ensures
            r@.len() == levels@.len(),
            forall|i: int| 0 <= i < levels@.len() ==> r@[i] == clamped_entry(palette@, levels@[i] as int),
    {
        let last: usize = palette.len() - 1;
        let mut colors: Vec<Rgb> = Vec::with_capacity(levels.len());
        let mut i: usize = 0;
        while i < levels.len()
            invariant
                palette@.len() >= 1,
                last == palette@.len() - 1,
                i <= levels@.len(),
                colors@.len() == i,
                forall|j: int| 0 <= j < i ==> colors@[j] == clamped_entry(palette@, levels@[j] as int),
            decreases levels@.len() - i,
        {
            let level = levels[i];
            let idx: usize = if (level as usize) < palette.len() { level as usize } else { last };
            colors.push(palette[idx]);
            i = i + 1;
        }
        ColorRamp { colors }
    }

    pub fn len(&self) -> (r: usize)
        ensures
            r == self@.len(),
    {
        self.colors.len()
    }

    pub fn get(&self, i: usize) -> (r: Rgb)
        requires
            i < self@.len(),
        ensures
            r == self@[i as int],
    {
        self.colors[i]
    }
}

/// The RGBA colour of one pixel.
pub fn color_of(iteration: u32, iter_limit: u32, ramp: &ColorRamp) -> (r: Rgba)
    requires
        iteration <= iter_limit,
        ramp@.len() == iter_limit,
    ensures
        r == pixel_color(iteration as int, iter_limit as int, ramp@),
{
    if iteration == iter_limit {
        Rgba { r: 0, g: 0, b: 0, a: 255 }
    } else {
        let c = ramp.get(iteration as usize);
        Rgba { r: c.r, g: c.g, b: c.b, a: 255 }
    }
}

/// The colour of a pixel is a function of its count, the limit and the
/// ramp alone, and an interior pixel is opaque black.
pub proof fn lemma_color_determined(iteration: int, limit: int, ramp: Seq<Rgb>, other: Seq<Rgb>)
    requires
        ramp == other,
    ensures
        pixel_color(iteration, limit, ramp) == pixel_color(iteration, limit, other),
        pixel_color(limit, limit, ramp) == black(),
        0 <= iteration < limit ==> pixel_color(iteration, limit, ramp).a == 255,
{
}

/// The RGBA frame of an iteration buffer: four bytes per pixel, in the
/// buffer's order.
pub fn render_frame(buffer: &Vec<u32>, iter_limit: u32, ramp: &ColorRamp) -> (r: Vec<u8>)
    requires
        4 * buffer@.len() <= usize::MAX,
        ramp@.len() == iter_limit,
        forall|i: int| 0 <= i < buffer@.len() ==> buffer@[i] <= iter_limit,
    ensures
        r@.len() == 4 * buffer@.len(),
        forall|i: int| 0 <= i < buffer@.len()
            ==> #[trigger] frame_pixel(r@, i) == pixel_color(buffer@[i] as int, iter_limit as int, ramp@),
{
    let mut frame: Vec<u8> = Vec::with_capacity(4 * buffer.len());
    let mut i: usize = 0;
    while i < buffer.len()
        invariant
            4 * buffer@.len() <= usize::MAX,
            ramp@.len() == iter_limit,
            forall|j: int| 0 <= j < buffer@.len() ==> buffer@[j] <= iter_limit,
            i <= buffer@.len(),
            frame@.len() == 4 * i,
            forall|j: int| 0 <= j < i
                ==> #[trigger] frame_pixel(frame@, j) == pixel_color(buffer@[j] as int, iter_limit as int, ramp@),
        decreases buffer@.len() - i,
    {
        let c = color_of(buffer[i], iter_limit, ramp);
        let ghost before = frame@;
        frame.push(c.r);
        frame.push(c.g);
        frame.push(c.b);
        frame.push(c.a);
        assert forall|j: int| 0 <= j < i + 1
            implies #[trigger] frame_pixel(frame@, j) == pixel_color(buffer@[j] as int, iter_limit as int, ramp@) by {
            if j < i {
                assert(frame_pixel(frame@, j) == frame_pixel(before, j));
            }
        }
        i = i + 1;
    }
    frame
}

} // verus!
