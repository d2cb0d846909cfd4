use vstd::prelude::*;

verus! {

/// One colour sample: four channels, each 0 to 255.
#[derive(Clone, Copy, PartialEq, Eq, Structural, Debug)]
pub struct Rgba {
    pub r: u8,
    pub g: u8,
    pub b: u8,
    pub a: u8,
}

/// What a sampled colour means to whoever travels through the cave.
#[derive(Clone, Copy, PartialEq, Eq, Structural, Debug)]
pub enum Surface {
    /// Open water: nothing is hit.
    Empty,
    /// The marker zone that swallows echoes without a trace.
    Undetectable,
    /// A wall or a point of interest, painted in the sampled colour.
    Solid,
}

impl Rgba {
    pub open spec fn spec_transparent() -> Rgba {
        Rgba { r: 0, g: 0, b: 0, a: 0 }
    }

    pub open spec fn spec_purple() -> Rgba {
        Rgba { r: 128, g: 0, b: 128, a: 255 }
    }

    /// Black in the three colour channels, whatever the alpha.
    pub open spec fn is_black(&self) -> bool {
        self.r == 0 && self.g == 0 && self.b == 0
    }

    /// Fully saturated, fully opaque red.
    pub open spec fn is_red(&self) -> bool {
        self.r == 255 && self.g == 0 && self.b == 0 && self.a == 255
    }

    /// The meaning of this colour as a mask sample.
    pub open spec fn surface(&self) -> Surface {
        if self.is_black() {
            Surface::Empty
        } else if self.is_red() {
            Surface::Undetectable
        } else {
            Surface::Solid
        }
    }

    /// The same colour with another alpha.
    pub open spec fn with_alpha(&self, a: u8) -> Rgba {
        Rgba { r: self.r, g: self.g, b: self.b, a }
    }

    /// Black with zero alpha: what lies off the mask, and the colour of an
    /// echo that leaves no mark.
    #[verifier::when_used_as_spec(spec_transparent)]
    pub fn transparent() -> (c: Rgba)
        ensures
            c == Rgba::spec_transparent(),
    {
        Rgba { r: 0, g: 0, b: 0, a: 0 }
    }

    /// The colour of echoes sent by the player and by placed beacons.
    #[verifier::when_used_as_spec(spec_purple)]
    pub fn purple() -> (c: Rgba)
        ensures
            c == Rgba::spec_purple(),
    {
        Rgba { r: 128, g: 0, b: 128, a: 255 }
    }

    /// Classifies a mask sample.
    pub fn classify(&self) -> (s: Surface)
        ensures
            s == self.surface(),
    {
        if self.r == 0 && self.g == 0 && self.b == 0 {
            Surface::Empty
        } else if self.r == 255 && self.g == 0 && self.b == 0 && self.a == 255 {
            Surface::Undetectable
        } else {
            Surface::Solid
        }
    }
}

/// The cave as a grid of colour samples, four bytes per pixel, row by row.
pub struct CollisionMask {
    pub width: usize,
    pub height: usize,
    pub bytes: Vec<u8>,
}

impl CollisionMask {
    /// The buffer holds exactly `width * height` samples.
    pub open spec fn wf(&self) -> bool {
        self.bytes@.len() == self.width * self.height * 4
    }

    /// The colour stored for pixel `(x, y)`, or transparent black off the grid.
    pub open spec fn pixel(&self, x: int, y: int) -> Rgba {
        if 0 <= x < self.width && 0 <= y < self.height {
            let i = (y * self.width + x) * 4;
            Rgba {
                r: self.bytes@[i],
                g: self.bytes@[i + 1],
                b: self.bytes@[i + 2],
                a: self.bytes@[i + 3],
            }
        } else {
            Rgba::spec_transparent()
        }
    }

    /// Builds a mask over a decoded pixel buffer. The buffer is accepted
    /// exactly when its length is `width * height * 4`.
    pub fn new(bytes: Vec<u8>, width: usize, height: usize) -> (m: Option<CollisionMask>)
        ensures
            m.is_some() <==> bytes@.len() == width * height * 4,
            m.is_some() ==> m.unwrap().wf() && m.unwrap().width == width && m.unwrap().height
                == height && m.unwrap().bytes@ == bytes@,
    {
        let pixels = width.checked_mul(height);
        match pixels {
            None => {
                let len: usize = bytes.len();
                assert(width * height * 4 >= width * height) by (nonlinear_arith)
                    requires
                        width * height >= 0,
                ;
                None
            },
            Some(p) => {
                match p.checked_mul(4) {
                    None => {
                        let len: usize = bytes.len();
                        None
                    },
                    Some(n) => {
                        if bytes.len() == n {
                            Some(CollisionMask { width, height, bytes })
                        } else {
                            None
                        }
                    },
                }
            },
        }
    }
}

/// Samples the mask at pixel `(x, y)`: the stored colour inside the grid,
/// transparent black anywhere else.
pub fn get_bg_color(mask: &CollisionMask, x: i64, y: i64) -> (c: Rgba)
    requires
        mask.wf(),
    ensures
        c == mask.pixel(x as int, y as int),
        !(0 <= x < mask.width && 0 <= y < mask.height) ==> c == Rgba::spec_transparent(),
{
    if x < 0 || y < 0 {
        return Rgba::transparent();
    }
    let xu: u64 = x as u64;
    let yu: u64 = y as u64;
    if xu >= mask.width as u64 || yu >= mask.height as u64 {
        return Rgba::transparent();
    }
    let xi: usize = xu as usize;
    let yi: usize = yu as usize;
    assert((yi * mask.width + xi) * 4 + 3 < mask.width * mask.height * 4) by (nonlinear_arith)
        requires
            0 <= xi < mask.width,
            0 <= yi < mask.height,
    ;
    assert(0 <= yi * mask.width <= yi * mask.width + xi) by (nonlinear_arith);
    let len: usize = mask.bytes.len();
    assert(mask.width * mask.height * 4 == len);
    let index: usize = (yi * mask.width + xi) * 4;
    Rgba {
        r: mask.bytes[index],
        g: mask.bytes[index + 1],
        b: mask.bytes[index + 2],
        a: mask.bytes[index + 3],
    }
}

} // verus!
