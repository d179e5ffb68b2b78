//! The wire format: spec functions giving the exact byte sequence each
//! model value encodes to, and the executable encoder proved to emit
//! those bytes.
//!
//! All multi-byte integers are little-endian. Composition is plain
//! concatenation: no padding, no alignment, no checksums, and no
//! length prefix on the whole message (the datagram bounds it).

use vstd::prelude::*;

use crate::model::AniBlend;
use crate::model::AniFrame;
use crate::model::AniGradient;
use crate::model::Color;
use crate::model::EncodingError;
use crate::model::GradPoint;
use crate::model::Gradient;
use crate::model::Palette;
use crate::model::Pattern;
use crate::model::PatternType;
use crate::model::Popping;
use crate::model::RandGradient;

verus! {

/// The two little-endian bytes of a 16-bit value.
pub open spec fn u16_le(x: int) -> Seq<u8>
    recommends
        0 <= x < 65536,
{
    seq![(x % 256) as u8, ((x / 256) % 256) as u8]
}

/// A color's bytes are (g, r, b) — the order the target hardware's
/// channel wiring expects, deliberately not (r, g, b).
pub open spec fn color_bytes(c: Color) -> Seq<u8> {
    seq![c.g, c.r, c.b]
}

/// A color range: start color, then end color.
pub open spec fn range_bytes(rg: (Color, Color)) -> Seq<u8> {
    color_bytes(rg.0) + color_bytes(rg.1)
}

/// The concatenated bytes of a sequence of color ranges, in order.
pub open spec fn ranges_bytes(rs: Seq<(Color, Color)>) -> Seq<u8>
    decreases rs.len(),
{
    if rs.len() == 0 {
        Seq::empty()
    } else {
        ranges_bytes(rs.drop_last()) + range_bytes(rs.last())
    }
}

/// A palette: u16 range count, then each range.
pub open spec fn palette_bytes(p: Palette) -> Seq<u8> {
    u16_le(p.ranges@.len() as int) + ranges_bytes(p.ranges@)
}

/// A gradient stop: u16 position, then its color.
pub open spec fn point_bytes(pt: GradPoint) -> Seq<u8> {
    u16_le(pt.n as int) + color_bytes(pt.c)
}

/// The concatenated bytes of a sequence of gradient stops, in order.
pub open spec fn points_bytes(ps: Seq<GradPoint>) -> Seq<u8>
    decreases ps.len(),
{
    if ps.len() == 0 {
        Seq::empty()
    } else {
        points_bytes(ps.drop_last()) + point_bytes(ps.last())
    }
}

/// A gradient: u16 stop count, then each stop.
pub open spec fn gradient_bytes(g: Gradient) -> Seq<u8> {
    u16_le(g.pts@.len() as int) + points_bytes(g.pts@)
}

/// An animation frame: u16 duration, the blend discriminant byte,
/// then its gradient.
pub open spec fn frame_bytes(f: AniFrame) -> Seq<u8> {
    u16_le(f.duration as int) + seq![f.blend.spec_num()] + gradient_bytes(f.grad)
}

/// The concatenated bytes of a sequence of animation frames, in order.
pub open spec fn frames_bytes(fs: Seq<AniFrame>) -> Seq<u8>
    decreases fs.len(),
{
    if fs.len() == 0 {
        Seq::empty()
    } else {
        frames_bytes(fs.drop_last()) + frame_bytes(fs.last())
    }
}

/// An animation: u16 frame count, then each frame.
pub open spec fn ani_gradient_bytes(a: AniGradient) -> Seq<u8> {
    u16_le(a.frames@.len() as int) + frames_bytes(a.frames@)
}

/// Randomized-gradient parameters, min before max for both pairs,
/// then the palette.
pub open spec fn rand_gradient_bytes(rg: RandGradient) -> Seq<u8> {
    seq![rg.minpoints, rg.maxpoints] + u16_le(rg.minduration as int) + u16_le(
        rg.maxduration as int,
    ) + palette_bytes(rg.colors)
}

/// The popping effect: timing bounds (min before max), size bounds,
/// the spot-type byte, the background color, then the palette.
pub open spec fn popping_bytes(pp: Popping) -> Seq<u8> {
    u16_le(pp.fadetime as int) + u16_le(pp.mintillspot as int) + u16_le(pp.maxtillspot as int)
        + u16_le(pp.mingrowspot as int) + u16_le(pp.maxgrowspot as int) + u16_le(pp.minsize as int)
        + u16_le(pp.maxsize as int) + seq![pp.spottypes] + color_bytes(pp.bg) + palette_bytes(
        pp.colors,
    )
}

/// The payload of the active variant (the discriminant byte is written
/// by the top-level pattern encoding, not here).
pub open spec fn payload_bytes(pt: PatternType) -> Seq<u8> {
    match pt {
        PatternType::Grad(gr) => gradient_bytes(gr),
        PatternType::AniGrad(ag) => ani_gradient_bytes(ag),
        PatternType::RandGrad(rg) => rand_gradient_bytes(rg),
        PatternType::Popping(pp) => popping_bytes(pp),
    }
}

/// The whole message: the variant's discriminant byte, the u16
/// timeout, then the variant payload.
pub open spec fn pattern_bytes(p: Pattern) -> Seq<u8> {
    seq![p.pat.spec_num()] + u16_le(p.timeout as int) + payload_bytes(p.pat)
}

/// Appends the two little-endian bytes of `x`.
fn push_u16_le(v: &mut Vec<u8>, x: u16)
    ensures
        final(v)@ == old(v)@ + u16_le(x as int),
{
    v.push((x % 256) as u8);
    v.push((x / 256) as u8);
    proof {
        assert(v@ =~= old(v)@ + u16_le(x as int));
    }
}

impl Color {
    /// Appends this color's three channel bytes in (g, r, b) order.
    pub fn ser(&self, v: &mut Vec<u8>)
        ensures
            final(v)@ == old(v)@ + color_bytes(*self),
    {
        v.push(self.g);
        v.push(self.r);
        v.push(self.b);
        proof {
            assert(v@ =~= old(v)@ + color_bytes(*self));
        }
    }
}

impl Palette {
    /// Appends this palette's encoding: u16 count, then each range.
    #[verifier::loop_isolation(false)]
    pub fn ser(&self, v: &mut Vec<u8>)
        requires
            self.wf(),
        ensures
            final(v)@ == old(v)@ + palette_bytes(*self),
    {
        let count: u16 = self.ranges.len() as u16;
        push_u16_le(v, count);
        let mut i: usize = 0;
        while i < self.ranges.len()
            invariant
                i <= self.ranges@.len(),
                v@ == old(v)@ + u16_le(self.ranges@.len() as int) + ranges_bytes(
                    self.ranges@.take(i as int),
                ),
            decreases self.ranges@.len() - i,
        {
            let rg = &self.ranges[i];
            rg.0.ser(v);
            rg.1.ser(v);
            proof {
                assert(self.ranges@.take(i + 1).drop_last() =~= self.ranges@.take(i as int));
                assert(v@ =~= old(v)@ + u16_le(self.ranges@.len() as int) + ranges_bytes(
                    self.ranges@.take(i + 1),
                ));
            }
            i += 1;
        }
        proof {
            assert(self.ranges@.take(self.ranges@.len() as int) =~= self.ranges@);
        }
    }
}

impl GradPoint {
    /// Appends this stop's encoding: u16 position, then its color.
    pub fn ser(&self, v: &mut Vec<u8>)
        ensures
            final(v)@ == old(v)@ + point_bytes(*self),
    {
        push_u16_le(v, self.n);
        self.c.ser(v);
    }
}

impl Gradient {
    /// Appends this gradient's encoding: u16 count, then each stop.
    #[verifier::loop_isolation(false)]
    pub fn ser(&self, v: &mut Vec<u8>)
        requires
            self.wf(),
        ensures
            final(v)@ == old(v)@ + gradient_bytes(*self),
    {
        let count: u16 = self.pts.len() as u16;
        push_u16_le(v, count);
        let mut i: usize = 0;
        while i < self.pts.len()
            invariant
                i <= self.pts@.len(),
                v@ == old(v)@ + u16_le(self.pts@.len() as int) + points_bytes(
                    self.pts@.take(i as int),
                ),
            decreases self.pts@.len() - i,
        {
            self.pts[i].ser(v);
            proof {
                assert(self.pts@.take(i + 1).drop_last() =~= self.pts@.take(i as int));
                assert(v@ =~= old(v)@ + u16_le(self.pts@.len() as int) + points_bytes(
                    self.pts@.take(i + 1),
                ));
            }
            i += 1;
        }
        proof {
            assert(self.pts@.take(self.pts@.len() as int) =~= self.pts@);
        }
    }
}

impl AniFrame {
    /// Appends this frame's encoding: u16 duration, blend byte, gradient.
    pub fn ser(&self, v: &mut Vec<u8>)
        requires
            self.wf(),
        ensures
            final(v)@ == old(v)@ + frame_bytes(*self),
    {
        push_u16_le(v, self.duration);
        v.push(self.blend.as_num());
        self.grad.ser(v);
        proof {
            assert(final(v)@ =~= old(v)@ + frame_bytes(*self));
        }
    }
}

impl AniGradient {
    /// Appends this animation's encoding: u16 frame count, then each frame.
    #[verifier::loop_isolation(false)]
    pub fn ser(&self, v: &mut Vec<u8>)
        requires
            self.wf(),
        ensures
            final(v)@ == old(v)@ + ani_gradient_bytes(*self),
    {
        let count: u16 = self.frames.len() as u16;
        push_u16_le(v, count);
        let mut i: usize = 0;
        while i < self.frames.len()
            invariant
                i <= self.frames@.len(),
                v@ == old(v)@ + u16_le(self.frames@.len() as int) + frames_bytes(
                    self.frames@.take(i as int),
                ),
            decreases self.frames@.len() - i,
        {
            self.frames[i].ser(v);
            proof {
                assert(self.frames@.take(i + 1).drop_last() =~= self.frames@.take(i as int));
                assert(v@ =~= old(v)@ + u16_le(self.frames@.len() as int) + frames_bytes(
                    self.frames@.take(i + 1),
                ));
            }
            i += 1;
        }
        proof {
            assert(self.frames@.take(self.frames@.len() as int) =~= self.frames@);
        }
    }
}

impl RandGradient {
    /// Appends the generator parameters: points bounds, duration
    /// bounds (min before max for both), then the palette.
    pub fn ser(&self, v: &mut Vec<u8>)
        requires
            self.wf(),
        ensures
            final(v)@ == old(v)@ + rand_gradient_bytes(*self),
    {
        v.push(self.minpoints);
        v.push(self.maxpoints);
        push_u16_le(v, self.minduration);
        push_u16_le(v, self.maxduration);
        self.colors.ser(v);
        proof {
            assert(final(v)@ =~= old(v)@ + rand_gradient_bytes(*self));
        }
    }
}

impl Popping {
    /// Appends the popping effect's encoding per the layout table:
    /// timing, size, spot types, background color, palette.
    pub fn ser(&self, v: &mut Vec<u8>)
        requires
            self.wf(),
        ensures
            final(v)@ == old(v)@ + popping_bytes(*self),
    {
        push_u16_le(v, self.fadetime);
        push_u16_le(v, self.mintillspot);
        push_u16_le(v, self.maxtillspot);
        push_u16_le(v, self.mingrowspot);
        push_u16_le(v, self.maxgrowspot);
        push_u16_le(v, self.minsize);
        push_u16_le(v, self.maxsize);
        v.push(self.spottypes);
        self.bg.ser(v);
        self.colors.ser(v);
        proof {
            assert(final(v)@ =~= old(v)@ + popping_bytes(*self));
        }
    }
}

impl PatternType {
    /// Appends the active variant's payload (not its discriminant).
    pub fn ser(&self, v: &mut Vec<u8>)
        requires
            self.wf(),
        ensures
            final(v)@ == old(v)@ + payload_bytes(*self),
    {
        match self {
            PatternType::Grad(gr) => gr.ser(v),
            PatternType::AniGrad(ag) => ag.ser(v),
            PatternType::RandGrad(rg) => rg.ser(v),
            PatternType::Popping(pp) => pp.ser(v),
        }
    }
}

impl Pattern {
    /// Appends the whole message: discriminant byte, u16 timeout, payload.
    pub fn ser(&self, v: &mut Vec<u8>)
        requires
            self.wf(),
        ensures
            final(v)@ == old(v)@ + pattern_bytes(*self),
    {
        v.push(self.pat.as_num());
        push_u16_le(v, self.timeout);
        self.pat.ser(v);
        proof {
            assert(final(v)@ =~= old(v)@ + pattern_bytes(*self));
        }
    }

    /// Encodes this pattern into a fresh buffer.
    ///
    /// Succeeds exactly when every sequence in the tree fits its u16
    /// count prefix; a too-long sequence is reported, never silently
    /// wrapped, and no partial buffer is produced. The result is a
    /// function of the pattern value alone, so encoding is
    /// deterministic.
    pub fn serialize(self) -> (r: Result<Vec<u8>, EncodingError>)
        ensures
            r is Ok <==> self.wf(),
            r matches Ok(buf) ==> buf@ == pattern_bytes(self),
            r matches Err(e) ==> e == EncodingError::SequenceTooLong,
    {
        if !self.fits() {
            return Err(EncodingError::SequenceTooLong);
        }
        let mut v: Vec<u8> = Vec::new();
        self.ser(&mut v);
        Ok(v)
    }
}

/// The exact wire bytes of the built-in demonstration pattern.
pub open spec fn test_pat_bytes() -> Seq<u8> {
    seq![
        0x02u8, 0x05, 0x00, 0x03, 0x00,
        0x1E, 0x00, 0x02, 0x03, 0x00, 0x00, 0x00, 0x00, 0x00, 0x30, 0x36, 0x00, 0x00, 0x20, 0x18,
        0x6D, 0x00, 0x00, 0x03, 0x00,
        0x0A, 0x00, 0x02, 0x02, 0x00, 0x00, 0x00, 0x05, 0x05, 0x05, 0x64, 0x00, 0x20, 0x00, 0x10,
        0x05, 0x00, 0x02, 0x02, 0x00, 0x00, 0x00, 0x05, 0x20, 0x10, 0x64, 0x00, 0x05, 0x05, 0x05,
    ]
}

/// A small built-in demonstration pattern: a three-frame animated
/// gradient with a 5-unit timeout, whose encoding is proved to be the
/// reference byte sequence `test_pat_bytes` — handy for exercising the
/// encoder and the firmware end to end.
pub fn get_test_pat() -> (r: Pattern)
    ensures
        r.wf(),
        r.timeout == 5,
        r.pat is AniGrad,
        pattern_bytes(r) == test_pat_bytes(),
{
    let mut pts0: Vec<GradPoint> = Vec::new();
    pts0.push(GradPoint { n: 0, c: Color { g: 0, r: 0, b: 0x30 } });
    pts0.push(GradPoint { n: 54, c: Color { g: 0, r: 0x20, b: 0x18 } });
    pts0.push(GradPoint { n: 109, c: Color { g: 0, r: 0x3, b: 0 } });
    let mut pts1: Vec<GradPoint> = Vec::new();
    pts1.push(GradPoint { n: 0, c: Color { g: 0x5, r: 0x5, b: 0x5 } });
    pts1.push(GradPoint { n: 100, c: Color { g: 0x20, r: 0, b: 0x10 } });
    let mut pts2: Vec<GradPoint> = Vec::new();
    pts2.push(GradPoint { n: 0, c: Color { g: 0x5, r: 0x20, b: 0x10 } });
    pts2.push(GradPoint { n: 100, c: Color { g: 0x5, r: 0x5, b: 0x5 } });
    let mut frames: Vec<AniFrame> = Vec::new();
    frames.push(AniFrame { duration: 30, blend: AniBlend::Linear, grad: Gradient { pts: pts0 } });
    frames.push(AniFrame { duration: 10, blend: AniBlend::Linear, grad: Gradient { pts: pts1 } });
    frames.push(AniFrame { duration: 5, blend: AniBlend::Linear, grad: Gradient { pts: pts2 } });
    let r = Pattern { timeout: 5, pat: PatternType::AniGrad(AniGradient { frames }) };
    proof {
        let fs = frames@;
        let s0 = fs[0].grad.pts@;
        let s1 = fs[1].grad.pts@;
        let s2 = fs[2].grad.pts@;

        assert(s0.drop_last().drop_last().drop_last() =~= Seq::<GradPoint>::empty());
        assert(points_bytes(s0.drop_last().drop_last().drop_last()) =~= Seq::<u8>::empty());
        assert(points_bytes(s0.drop_last().drop_last()) =~= seq![
            0x00u8, 0x00, 0x00, 0x00, 0x30,
        ]);
        assert(points_bytes(s0.drop_last()) =~= seq![
            0x00u8, 0x00, 0x00, 0x00, 0x30, 0x36, 0x00, 0x00, 0x20, 0x18,
        ]);
        assert(points_bytes(s0) =~= seq![
            0x00u8, 0x00, 0x00, 0x00, 0x30, 0x36, 0x00, 0x00, 0x20, 0x18, 0x6D, 0x00, 0x00, 0x03,
            0x00,
        ]);
        assert(frame_bytes(fs[0]) =~= seq![
            0x1Eu8, 0x00, 0x02, 0x03, 0x00, 0x00, 0x00, 0x00, 0x00, 0x30, 0x36, 0x00, 0x00, 0x20,
            0x18, 0x6D, 0x00, 0x00, 0x03, 0x00,
        ]);

        assert(s1.drop_last().drop_last() =~= Seq::<GradPoint>::empty());
        assert(points_bytes(s1.drop_last().drop_last()) =~= Seq::<u8>::empty());
        assert(points_bytes(s1.drop_last()) =~= seq![0x00u8, 0x00, 0x05, 0x05, 0x05]);
        assert(points_bytes(s1) =~= seq![
            0x00u8, 0x00, 0x05, 0x05, 0x05, 0x64, 0x00, 0x20, 0x00, 0x10,
        ]);
        assert(frame_bytes(fs[1]) =~= seq![
            0x0Au8, 0x00, 0x02, 0x02, 0x00, 0x00, 0x00, 0x05, 0x05, 0x05, 0x64, 0x00, 0x20, 0x00,
            0x10,
        ]);

        assert(s2.drop_last().drop_last() =~= Seq::<GradPoint>::empty());
        assert(points_bytes(s2.drop_last().drop_last()) =~= Seq::<u8>::empty());
        assert(points_bytes(s2.drop_last()) =~= seq![0x00u8, 0x00, 0x05, 0x20, 0x10]);
        assert(points_bytes(s2) =~= seq![
            0x00u8, 0x00, 0x05, 0x20, 0x10, 0x64, 0x00, 0x05, 0x05, 0x05,
        ]);
        assert(frame_bytes(fs[2]) =~= seq![
            0x05u8, 0x00, 0x02, 0x02, 0x00, 0x00, 0x00, 0x05, 0x20, 0x10, 0x64, 0x00, 0x05, 0x05,
            0x05,
        ]);

        assert(fs.drop_last().drop_last().drop_last() =~= Seq::<AniFrame>::empty());
        assert(frames_bytes(fs.drop_last().drop_last().drop_last()) =~= Seq::<u8>::empty());
        assert(frames_bytes(fs.drop_last().drop_last()) =~= frame_bytes(fs[0]));
        assert(frames_bytes(fs.drop_last()) =~= frame_bytes(fs[0]) + frame_bytes(fs[1]));
        assert(frames_bytes(fs) =~= frame_bytes(fs[0]) + frame_bytes(fs[1]) + frame_bytes(fs[2]));
        assert(pattern_bytes(r) =~= test_pat_bytes());
    }
    r
}

/// Law: encoding is deterministic. The buffer `serialize` returns is
/// pinned to `pattern_bytes`, a function of the pattern value alone,
/// so encoding equal patterns twice yields byte-identical buffers.
pub proof fn lemma_encode_deterministic(p: Pattern, q: Pattern)
    requires
        p == q,
    ensures
        pattern_bytes(p) == pattern_bytes(q),
{
}

/// Law: a sequence of color ranges encodes to 6 bytes per range.
pub proof fn lemma_ranges_bytes_len(rs: Seq<(Color, Color)>)
    ensures
        ranges_bytes(rs).len() == 6 * rs.len(),
    decreases rs.len(),
{
    if rs.len() > 0 {
        lemma_ranges_bytes_len(rs.drop_last());
    }
}

/// Law: a palette's encoding is exactly 2 + 6 × rangeCount bytes.
pub proof fn lemma_palette_encoded_len(p: Palette)
    ensures
        palette_bytes(p).len() == 2 + 6 * p.ranges@.len(),
{
    lemma_ranges_bytes_len(p.ranges@);
}

/// Law: a sequence of gradient stops encodes to 5 bytes per stop.
pub proof fn lemma_points_bytes_len(ps: Seq<GradPoint>)
    ensures
        points_bytes(ps).len() == 5 * ps.len(),
    decreases ps.len(),
{
    if ps.len() > 0 {
        lemma_points_bytes_len(ps.drop_last());
    }
}

/// Law: a gradient's encoding is exactly 2 + 5 × pointCount bytes.
pub proof fn lemma_gradient_encoded_len(g: Gradient)
    ensures
        gradient_bytes(g).len() == 2 + 5 * g.pts@.len(),
{
    lemma_points_bytes_len(g.pts@);
}

} // verus!
