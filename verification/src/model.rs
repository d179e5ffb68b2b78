//! The pattern model: the value tree describing one lighting command.
//!
//! Every ordered sequence in the tree must have a length that fits in
//! 16 bits, because the wire format prefixes each sequence with a u16
//! count. `wf` states that invariant; the executable `fits` checks
//! decide it.

use vstd::prelude::*;

verus! {

/// One 8-bit-per-channel color. No invariant beyond the channel range.
#[derive(Clone, Copy, Debug)]
pub struct Color {
    pub g: u8,
    pub r: u8,
    pub b: u8,
}

/// An ordered sequence of color ranges `(start, end)`.
#[derive(Clone, Debug)]
pub struct Palette {
    pub ranges: Vec<(Color, Color)>,
}

/// A 16-bit position (unit defined by the firmware) with a color.
#[derive(Clone, Copy, Debug)]
pub struct GradPoint {
    pub n: u16,
    pub c: Color,
}

/// An ordered sequence of gradient stops.
#[derive(Clone, Debug)]
pub struct Gradient {
    pub pts: Vec<GradPoint>,
}

/// How one animation frame blends into the next. Each variant has a
/// fixed wire discriminant, given by `spec_num` / `as_num`.
#[derive(Clone, Copy, Debug, PartialEq, Eq, Structural)]
pub enum AniBlend {
    Hold,
    Linear,
    Dissolve,
    RSlide,
    LSlide,
}

/// One animation frame: how long it lasts, how it blends, what it shows.
#[derive(Clone, Debug)]
pub struct AniFrame {
    pub duration: u16,
    pub blend: AniBlend,
    pub grad: Gradient,
}

/// A multi-frame animation.
#[derive(Clone, Debug)]
pub struct AniGradient {
    pub frames: Vec<AniFrame>,
}

/// Parameters for the firmware-side randomized gradient generator.
/// The random result is never materialized here.
#[derive(Clone, Debug)]
pub struct RandGradient {
    pub maxpoints: u8,
    pub minpoints: u8,
    pub maxduration: u16,
    pub minduration: u16,
    pub colors: Palette,
}

/// The procedural "popping spot" effect: timing and size bounds, a
/// spot-type flag byte, a background color, and a palette.
#[derive(Clone, Debug)]
pub struct Popping {
    pub fadetime: u16,
    pub maxtillspot: u16,
    pub mintillspot: u16,
    pub maxgrowspot: u16,
    pub mingrowspot: u16,
    pub maxsize: u16,
    pub minsize: u16,
    pub spottypes: u8,
    pub bg: Color,
    pub colors: Palette,
}

/// The tagged union over the four pattern kinds. Exactly one variant
/// is active; each has a fixed wire discriminant (`spec_num` / `as_num`).
#[derive(Clone, Debug)]
pub enum PatternType {
    Grad(Gradient),
    AniGrad(AniGradient),
    RandGrad(RandGradient),
    Popping(Popping),
}

/// The root value: a 16-bit timeout and the pattern itself.
#[derive(Clone, Debug)]
pub struct Pattern {
    pub timeout: u16,
    pub pat: PatternType,
}

/// Why encoding can fail: some sequence in the tree is too long for
/// its 16-bit count prefix.
#[derive(Clone, Copy, Debug, PartialEq, Eq, Structural)]
pub enum EncodingError {
    SequenceTooLong,
}

impl Palette {
    /// The count of ranges must fit in the u16 count prefix.
    pub open spec fn wf(self) -> bool {
        self.ranges@.len() <= 65535
    }

    pub fn fits(&self) -> (r: bool)
        ensures
            r == self.wf(),
    {
        self.ranges.len() <= 65535
    }
}

impl Gradient {
    /// The count of stops must fit in the u16 count prefix.
    pub open spec fn wf(self) -> bool {
        self.pts@.len() <= 65535
    }

    pub fn fits(&self) -> (r: bool)
        ensures
            r == self.wf(),
    {
        self.pts.len() <= 65535
    }
}

impl AniBlend {
    /// The fixed wire discriminant of each blend mode. A protocol
    /// constant, not an artifact of declaration order.
    pub open spec fn spec_num(self) -> u8 {
        match self {
            AniBlend::Hold => 1,
            AniBlend::Linear => 2,
            AniBlend::Dissolve => 3,
            AniBlend::RSlide => 4,
            AniBlend::LSlide => 5,
        }
    }

    pub fn as_num(&self) -> (r: u8)
        ensures
            r == self.spec_num(),
    {
        match self {
            AniBlend::Hold => 1,
            AniBlend::Linear => 2,
            AniBlend::Dissolve => 3,
            AniBlend::RSlide => 4,
            AniBlend::LSlide => 5,
        }
    }
}

impl AniFrame {
    /// A frame is well-formed when its gradient is.
    pub open spec fn wf(self) -> bool {
        self.grad.wf()
    }

    pub fn fits(&self) -> (r: bool)
        ensures
            r == self.wf(),
    {
        self.grad.fits()
    }
}

impl AniGradient {
    /// The frame count and every frame's gradient must fit.
    pub open spec fn wf(self) -> bool {
        &&& self.frames@.len() <= 65535
        &&& forall|j: int| 0 <= j < self.frames@.len() ==> self.frames@[j].wf()
    }

    pub fn fits(&self) -> (r: bool)
        ensures
            r == self.wf(),
    {
        if self.frames.len() > 65535 {
            return false;
        }
        let mut i: usize = 0;
        while i < self.frames.len()
            invariant
                i <= self.frames@.len(),
                self.frames@.len() <= 65535,
                forall|j: int| 0 <= j < i ==> self.frames@[j].wf(),
            decreases self.frames@.len() - i,
        {
            if !self.frames[i].fits() {
                return false;
            }
            i += 1;
        }
        true
    }
}

impl RandGradient {
    /// Well-formed when the palette is.
    pub open spec fn wf(self) -> bool {
        self.colors.wf()
    }

    pub fn fits(&self) -> (r: bool)
        ensures
            r == self.wf(),
    {
        self.colors.fits()
    }
}

impl Popping {
    /// Well-formed when the palette is.
    pub open spec fn wf(self) -> bool {
        self.colors.wf()
    }

    pub fn fits(&self) -> (r: bool)
        ensures
            r == self.wf(),
    {
        self.colors.fits()
    }
}

impl PatternType {
    /// The fixed wire discriminant of each pattern kind. A protocol
    /// constant, not an artifact of declaration order.
    pub open spec fn spec_num(self) -> u8 {
        match self {
            PatternType::Grad(_) => 1,
            PatternType::AniGrad(_) => 2,
            PatternType::RandGrad(_) => 3,
            PatternType::Popping(_) => 4,
        }
    }

    pub fn as_num(&self) -> (r: u8)
        ensures
            r == self.spec_num(),
    {
        match self {
            PatternType::Grad(_) => 1,
            PatternType::AniGrad(_) => 2,
            PatternType::RandGrad(_) => 3,
            PatternType::Popping(_) => 4,
        }
    }

    /// Every sequence under the active variant fits its count prefix.
    pub open spec fn wf(self) -> bool {
        match self {
            PatternType::Grad(gr) => gr.wf(),
            PatternType::AniGrad(ag) => ag.wf(),
            PatternType::RandGrad(rg) => rg.wf(),
            PatternType::Popping(pp) => pp.wf(),
        }
    }

    pub fn fits(&self) -> (r: bool)
        ensures
            r == self.wf(),
    {
        match self {
            PatternType::Grad(gr) => gr.fits(),
            PatternType::AniGrad(ag) => ag.fits(),
            PatternType::RandGrad(rg) => rg.fits(),
            PatternType::Popping(pp) => pp.fits(),
        }
    }
}

impl Pattern {
    /// Every sequence in the tree fits its count prefix.
    pub open spec fn wf(self) -> bool {
        self.pat.wf()
    }

    pub fn fits(&self) -> (r: bool)
        ensures
            r == self.wf(),
    {
        self.pat.fits()
    }
}

} // verus!
