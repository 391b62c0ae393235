//! A pixel stored in blue, green, red, alpha order, as the preedit window's
//! image surface lays it out.
use image::Pixel;
use vstd::prelude::*;

verus! {

/// Luma of an sRGB color: the weighted sum
/// `(2126 r + 7152 g + 722 b) / 10000`, rounded down.
pub open spec fn luma(r: u8, g: u8, b: u8) -> u8 {
    ((2126 * r + 7152 * g + 722 * b) / 10000) as u8
}

/// `image`'s `Pixel::to_luma` on an RGB pixel: its source computes
/// `(2126 r + 7152 g + 722 b) / 10000` in 32-bit arithmetic.
#[verifier::external_body]
fn rgb_to_luma(rgb: [u8; 3]) -> (l: u8)
    ensures
        l == luma(rgb@[0], rgb@[1], rgb@[2]),
{
    image::Rgb(rgb).to_luma().0[0]
}

/// `image`'s `Pixel::to_luma_alpha` on an RGBA pixel: the luma of the color
/// channels and the alpha channel unchanged.
#[verifier::external_body]
fn rgba_to_luma_alpha(rgba: [u8; 4]) -> (la: [u8; 2])
    ensures
        la@ == seq![luma(rgba@[0], rgba@[1], rgba@[2]), rgba@[3]],
{
    image::Rgba(rgba).to_luma_alpha().0
}

/// What `image`'s source-over blend of the RGBA pixel `fg` onto `bg` gives.
pub uninterp spec fn rgba_blend(bg: Seq<u8>, fg: Seq<u8>) -> Seq<u8>;

/// `image`'s `Pixel::blend` on RGBA pixels: composites `fg` over `bg` in
/// floating point. Its source returns `bg` unchanged when `fg` is fully
/// transparent and gives `fg` when it is fully opaque; what it gives in
/// between is named, not stated.
#[verifier::external_body]
fn blend_rgba(bg: [u8; 4], fg: [u8; 4]) -> (r: [u8; 4])
    ensures
        r@ == rgba_blend(bg@, fg@),
        fg@[3] == 0 ==> r@ == bg@,
        fg@[3] == 255 ==> r@ == fg@,
{
    let mut p = image::Rgba(bg);
    p.blend(&image::Rgba(fg));
    p.0
}

/// Four channels with the first and third swapped: BGRA to RGBA, and back.
pub open spec fn rgba_order(c: Seq<u8>) -> Seq<u8> {
    seq![c[2], c[1], c[0], c[3]]
}

/// Four channels with the color ones inverted and alpha kept.
pub open spec fn inverted(c: Seq<u8>) -> Seq<u8> {
    seq![(255 - c[0]) as u8, (255 - c[1]) as u8, (255 - c[2]) as u8, c[3]]
}

/// Converting a pixel to RGBA order and back gives the pixel again.
pub proof fn law_rgba_roundtrip(c: Seq<u8>)
    requires
        c.len() == 4,
    ensures
        rgba_order(rgba_order(c)) == c,
{
    assert(rgba_order(rgba_order(c)) =~= c);
}

/// Inverting a pixel twice gives the pixel again.
pub proof fn law_invert_twice(c: Seq<u8>)
    requires
        c.len() == 4,
    ensures
        inverted(inverted(c)) == c,
{
    assert(inverted(inverted(c)) =~= c);
}

/// Blue, green, red and alpha channels, in that order.
#[derive(Clone, Copy, Debug, PartialEq, Eq, Default)]
pub struct Bgra(pub [u8; 4]);

impl Bgra {
    pub open spec fn b(&self) -> u8 {
        self.0@[0]
    }

    pub open spec fn g(&self) -> u8 {
        self.0@[1]
    }

    pub open spec fn r(&self) -> u8 {
        self.0@[2]
    }

    pub open spec fn a(&self) -> u8 {
        self.0@[3]
    }

    /// Number of channels.
    pub const CHANNEL_COUNT: u8 = 4;

    /// The channel layout's name.
    pub fn color_model() -> (r: &'static str)
        ensures
            r@ == "BGRA"@,
    {
        "BGRA"
    }

    /// The channels in storage order.
    pub fn channels(&self) -> (r: &[u8])
        ensures
            r@ == self.0@,
    {
        self.0.as_slice()
    }

    /// The four channels in storage order.
    pub fn channels4(&self) -> (r: (u8, u8, u8, u8))
        ensures
            r == (self.b(), self.g(), self.r(), self.a()),
    {
        (self.0[0], self.0[1], self.0[2], self.0[3])
    }

    /// A pixel from four channels in storage order.
    pub fn from_channels(a: u8, b: u8, c: u8, d: u8) -> (p: Self)
        ensures
            p.0@ == seq![a, b, c, d],
    {
        Bgra([a, b, c, d])
    }

    /// The pixel stored in the first four bytes of `slice`.
    pub fn from_slice(slice: &[u8]) -> (p: Self)
        requires
            slice@.len() >= 4,
        ensures
            p.0@ == slice@.subrange(0, 4),
    {
        let p = Bgra([slice[0], slice[1], slice[2], slice[3]]);
        assert(p.0@ =~= slice@.subrange(0, 4));
        p
    }

    /// The color channels in red, green, blue order.
    pub fn to_rgb(&self) -> (rgb: [u8; 3])
        ensures
            rgb@ == seq![self.r(), self.g(), self.b()],
    {
        [self.0[2], self.0[1], self.0[0]]
    }

    /// The channels in red, green, blue, alpha order.
    pub fn to_rgba(&self) -> (rgba: [u8; 4])
        ensures
            rgba@ == seq![self.r(), self.g(), self.b(), self.a()],
            rgba@ == rgba_order(self.0@),
    {
        [self.0[2], self.0[1], self.0[0], self.0[3]]
    }

    /// The pixel with channels in red, green, blue, alpha order.
    pub fn from_rgba(rgba: [u8; 4]) -> (p: Self)
        ensures
            p.r() == rgba@[0],
            p.g() == rgba@[1],
            p.b() == rgba@[2],
            p.a() == rgba@[3],
            p.0@ == rgba_order(rgba@),
    {
        Bgra([rgba[2], rgba[1], rgba[0], rgba[3]])
    }

    /// Every channel through `f`.
    pub fn map<F: Fn(u8) -> u8>(&self, f: F) -> (p: Self)
        requires
            forall|c: u8| f.requires((c,)),
        ensures
            forall|i: int| 0 <= i < 4 ==> f.ensures((self.0@[i],), #[trigger] p.0@[i]),
    {
        let mut p = *self;
        p.apply(f);
        p
    }

    /// Passes every channel through `f` in place.
    pub fn apply<F: Fn(u8) -> u8>(&mut self, f: F)
        requires
            forall|c: u8| f.requires((c,)),
        ensures
            forall|i: int| 0 <= i < 4 ==> f.ensures((old(self).0@[i],), #[trigger] final(self).0@[i]),
    {
        let c0 = f(self.0[0]);
        let c1 = f(self.0[1]);
        let c2 = f(self.0[2]);
        let c3 = f(self.0[3]);
        self.0 = [c0, c1, c2, c3];
    }

    /// Color channels through `f`, alpha through `g`.
    pub fn map_with_alpha<F: Fn(u8) -> u8, G: Fn(u8) -> u8>(&self, f: F, g: G) -> (p: Self)
        requires
            forall|c: u8| f.requires((c,)),
            forall|c: u8| g.requires((c,)),
        ensures
            forall|i: int| 0 <= i < 3 ==> f.ensures((self.0@[i],), #[trigger] p.0@[i]),
            g.ensures((self.a(),), p.a()),
    {
        let mut ret = *self;
        ret.apply_with_alpha(f, g);
        ret
    }

    /// Passes the color channels through `f` and alpha through `g`, in
    /// place.
    pub fn apply_with_alpha<F: Fn(u8) -> u8, G: Fn(u8) -> u8>(&mut self, f: F, g: G)
        requires
            forall|c: u8| f.requires((c,)),
            forall|c: u8| g.requires((c,)),
        ensures
            forall|i: int|
                0 <= i < 3 ==> f.ensures((old(self).0@[i],), #[trigger] final(self).0@[i]),
            g.ensures((old(self).a(),), final(self).a()),
    {
        let c0 = f(self.0[0]);
        let c1 = f(self.0[1]);
        let c2 = f(self.0[2]);
        let c3 = g(self.0[3]);
        self.0 = [c0, c1, c2, c3];
    }

    /// Channel-wise combination with `other` through `f`.
    pub fn map2<F: Fn(u8, u8) -> u8>(&self, other: &Self, f: F) -> (p: Self)
        requires
            forall|a: u8, b: u8| f.requires((a, b)),
        ensures
            forall|i: int| 0 <= i < 4 ==> f.ensures((self.0@[i], other.0@[i]), #[trigger] p.0@[i]),
    {
        let mut ret = *self;
        ret.apply2(other, f);
        ret
    }

    /// Combines each channel with the same channel of `other` through `f`,
    /// in place.
    pub fn apply2<F: Fn(u8, u8) -> u8>(&mut self, other: &Self, f: F)
        requires
            forall|a: u8, b: u8| f.requires((a, b)),
        ensures
            forall|i: int|
                0 <= i < 4 ==> f.ensures(
                    (old(self).0@[i], other.0@[i]),
                    #[trigger] final(self).0@[i],
                ),
    {
        let c0 = f(self.0[0], other.0[0]);
        let c1 = f(self.0[1], other.0[1]);
        let c2 = f(self.0[2], other.0[2]);
        let c3 = f(self.0[3], other.0[3]);
        self.0 = [c0, c1, c2, c3];
    }

    /// Inverts the color channels; alpha stays.
    pub fn invert(&mut self)
        ensures
            final(self).b() == 255 - old(self).b(),
            final(self).g() == 255 - old(self).g(),
            final(self).r() == 255 - old(self).r(),
            final(self).a() == old(self).a(),
            final(self).0@ == inverted(old(self).0@),
    {
        let c0 = 255 - self.0[0];
        let c1 = 255 - self.0[1];
        let c2 = 255 - self.0[2];
        let c3 = self.0[3];
        self.0 = [c0, c1, c2, c3];
        assert(self.0@ =~= inverted(old(self).0@));
    }

    /// The luma of the color, as `image` computes it.
    pub fn to_luma(&self) -> (l: u8)
        ensures
            l == luma(self.r(), self.g(), self.b()),
    {
        rgb_to_luma(self.to_rgb())
    }

    /// The luma of the color and the alpha channel.
    pub fn to_luma_alpha(&self) -> (la: [u8; 2])
        ensures
            la@ == seq![luma(self.r(), self.g(), self.b()), self.a()],
    {
        rgba_to_luma_alpha(self.to_rgba())
    }

    /// Composites `other` over this pixel, as `image` does for RGBA pixels.
    pub fn blend(&mut self, other: &Self)
        ensures
            ({
                let bg = seq![old(self).r(), old(self).g(), old(self).b(), old(self).a()];
                let fg = seq![other.r(), other.g(), other.b(), other.a()];
                seq![final(self).r(), final(self).g(), final(self).b(), final(self).a()]
                    == rgba_blend(bg, fg)
            }),
            other.a() == 0 ==> *final(self) == *old(self),
            other.a() == 255 ==> *final(self) == *other,
    {
        let rgba = blend_rgba(self.to_rgba(), other.to_rgba());
        let r = rgba[0];
        let g = rgba[1];
        let b = rgba[2];
        let a = rgba[3];
        self.0 = [b, g, r, a];
        assert(self.0@ =~= seq![b, g, r, a]);
        proof {
            if other.a() == 0 {
                assert(self.0@ =~= old(self).0@);
                assert(self.0 =~= old(self).0);
            }
            if other.a() == 255 {
                assert(self.0@ =~= other.0@);
                assert(self.0 =~= other.0);
            }
        }
    }
}

} // verus!
