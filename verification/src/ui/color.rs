//! Color representation.

use vstd::prelude::*;
use vstd::std_specs::convert::FromSpecImpl;

verus! {

/// A color in the `sRGBA` space.
#[derive(Debug, Clone, Copy, PartialEq, Eq, PartialOrd, Ord, Hash)]
pub struct Color([u8; 4]);

impl Color {
    /// The red, green, blue and alpha components, in that order.
    pub closed spec fn components(self) -> [u8; 4] {
        self.0
    }

    /// The color whose components are `r`, `g`, `b` and `a`.
    pub closed spec fn spec_from_rgba(r: u8, g: u8, b: u8, a: u8) -> Color {
        Color([r, g, b, a])
    }

    /// Creates a [`Color`] from the red, green, blue and alpha components.
    #[must_use]
    pub fn from_rgba(r: u8, g: u8, b: u8, a: u8) -> (c: Self)
        ensures
            c.components() == [r, g, b, a],
    {
        Self([r, g, b, a])
    }

    /// Creates a [`Color`] from the red, green and blue components.
    ///
    /// The alpha is set to `255`.
    #[must_use]
    pub fn from_rgb(r: u8, g: u8, b: u8) -> (c: Self)
        ensures
            c.components() == [r, g, b, 255u8],
    {
        Self([r, g, b, 255])
    }

    /// The red, green, blue and alpha components of the color.
    #[must_use]
    pub fn rgba(self) -> (t: (u8, u8, u8, u8))
        ensures
            t == (
                self.components()[0],
                self.components()[1],
                self.components()[2],
                self.components()[3],
            ),
    {
        (self.0[0], self.0[1], self.0[2], self.0[3])
    }

    /// Gets a readonly reference of the color as an sRGBA array.
    #[must_use]
    pub fn as_array(&self) -> (arr: &[u8; 4])
        ensures
            *arr == self.components(),
    {
        &self.0
    }

    /// Gets a mutable reference of the color as an sRGBA array.
    #[must_use]
    pub fn as_array_mut(&mut self) -> (arr: &mut [u8; 4])
        ensures
            *arr == old(self).components(),
            final(self).components() == *final(arr),
    {
        &mut self.0
    }

    /// The components of this color in the premultiplied-alpha sRGBA form
    /// used by egui's `Color32`.
    ///
    /// A fully transparent color becomes `[0, 0, 0, 0]` and an opaque color
    /// keeps its components; the alpha is always kept. For the other alphas
    /// the red, green and blue components go through egui's gamma-aware
    /// premultiplication, each channel on its own and in place: a zero
    /// component stays zero, and equal components stay equal.
    #[must_use]
    pub fn into_egui(self) -> (arr: [u8; 4])
        ensures
            self.components()[3] == 0 ==> arr == [0u8, 0u8, 0u8, 0u8],
            self.components()[3] == 255 ==> arr == self.components(),
            arr[3] == self.components()[3],
            forall|k: int| 0 <= k < 3 ==> (self.components()[k] == 0 ==> #[trigger] arr[k] == 0),
            forall|p: int, q: int|
                0 <= p < 3 && 0 <= q < 3 && self.components()[p] == self.components()[q] ==> (
                #[trigger] arr[p]) == #[trigger] arr[q],
    {
        let (r, g, b, a) = self.rgba();
        color32_from_rgba_unmultiplied(r, g, b, a)
    }

    /// Fully transparent.
    #[must_use]
    pub fn transparent() -> (c: Color)
        ensures
            c.components() == [0u8, 0u8, 0u8, 0u8],
    {
        Color([0, 0, 0, 0])
    }

    /// Opaque white.
    #[must_use]
    pub fn white() -> (c: Color)
        ensures
            c.components() == [255u8, 255u8, 255u8, 255u8],
    {
        Color([255, 255, 255, 255])
    }

    /// Opaque black.
    #[must_use]
    pub fn black() -> (c: Color)
        ensures
            c.components() == [0u8, 0u8, 0u8, 255u8],
    {
        Color([0, 0, 0, 255])
    }

    /// Opaque red.
    #[must_use]
    pub fn red() -> (c: Color)
        ensures
            c.components() == [255u8, 0u8, 0u8, 255u8],
    {
        Color([255, 0, 0, 255])
    }

    /// Opaque green.
    #[must_use]
    pub fn green() -> (c: Color)
        ensures
            c.components() == [0u8, 255u8, 0u8, 255u8],
    {
        Color([0, 255, 0, 255])
    }

    /// Opaque blue.
    #[must_use]
    pub fn blue() -> (c: Color)
        ensures
            c.components() == [0u8, 0u8, 255u8, 255u8],
    {
        Color([0, 0, 255, 255])
    }

    /// Opaque cyan.
    #[must_use]
    pub fn cyan() -> (c: Color)
        ensures
            c.components() == [0u8, 255u8, 255u8, 255u8],
    {
        Color([0, 255, 255, 255])
    }

    /// Opaque magenta.
    #[must_use]
    pub fn magenta() -> (c: Color)
        ensures
            c.components() == [255u8, 0u8, 255u8, 255u8],
    {
        Color([255, 0, 255, 255])
    }

    /// Opaque yellow.
    #[must_use]
    pub fn yellow() -> (c: Color)
        ensures
            c.components() == [255u8, 255u8, 0u8, 255u8],
    {
        Color([255, 255, 0, 255])
    }
}

/// Calls egui's `Color32::from_rgba_unmultiplied` and reads the result back
/// with `Color32::to_array`.
///
/// Claimed of it, as ecolor 0.29's source shows: an alpha of `0` gives
/// `Color32::TRANSPARENT` (`[0, 0, 0, 0]`); an alpha of `255` gives
/// `Color32::from_rgb(r, g, b)` (`[r, g, b, 255]`); any other alpha is kept
/// as the fourth component. For alphas strictly between `0` and `255` each
/// of the red, green and blue components is looked up, on its own, in one
/// gamma-aware table indexed by the component and the alpha: equal
/// components give equal results, and a zero component stays zero (the
/// table maps it through `0.0`, which ecolor turns back into `0` without
/// `powf`). The other entries of the table are filled with floating-point
/// `powf`, whose rounding std leaves platform-dependent: they are left
/// unstated.
#[verifier::external_body]
fn color32_from_rgba_unmultiplied(r: u8, g: u8, b: u8, a: u8) -> (arr: [u8; 4])
    ensures
        a == 0 ==> arr == [0u8, 0u8, 0u8, 0u8],
        a == 255 ==> arr == [r, g, b, 255u8],
        arr[3] == a,
        r == 0 ==> arr[0] == 0,
        g == 0 ==> arr[1] == 0,
        b == 0 ==> arr[2] == 0,
        r == g ==> arr[0] == arr[1],
        g == b ==> arr[1] == arr[2],
        r == b ==> arr[0] == arr[2],
{
    egui::Color32::from_rgba_unmultiplied(r, g, b, a).to_array()
}

impl Default for Color {
    /// [`Color::transparent`].
    fn default() -> (c: Self)
        ensures
            c.components() == [0u8, 0u8, 0u8, 0u8],
    {
        Color::transparent()
    }
}

impl From<(u8, u8, u8, u8)> for Color {
    fn from(rgba: (u8, u8, u8, u8)) -> (c: Self)
        ensures
            c.components() == [rgba.0, rgba.1, rgba.2, rgba.3],
    {
        let (r, g, b, a) = rgba;
        Color::from_rgba(r, g, b, a)
    }
}

impl FromSpecImpl<(u8, u8, u8, u8)> for Color {
    open spec fn obeys_from_spec() -> bool {
        true
    }

    open spec fn from_spec(v: (u8, u8, u8, u8)) -> Color {
        Color::spec_from_rgba(v.0, v.1, v.2, v.3)
    }
}

impl From<(u8, u8, u8)> for Color {
    fn from(rgb: (u8, u8, u8)) -> (c: Self)
        ensures
            c.components() == [rgb.0, rgb.1, rgb.2, 255u8],
    {
        let (r, g, b) = rgb;
        Color::from_rgb(r, g, b)
    }
}

impl FromSpecImpl<(u8, u8, u8)> for Color {
    open spec fn obeys_from_spec() -> bool {
        true
    }

    open spec fn from_spec(v: (u8, u8, u8)) -> Color {
        Color::spec_from_rgba(v.0, v.1, v.2, 255)
    }
}

/// The components given to a color are the ones it gives back.
pub proof fn lemma_rgba_round_trip(r: u8, g: u8, b: u8, a: u8)
    ensures
        Color::spec_from_rgba(r, g, b, a).components() == [r, g, b, a],
{
}

/// A color is determined by its components.
pub proof fn lemma_components_determine_color(c1: Color, c2: Color)
    requires
        c1.components() == c2.components(),
    ensures
        c1 == c2,
{
}

/// Rebuilding a color from its components yields the same color.
pub proof fn lemma_components_round_trip(c: Color)
    ensures
        Color::spec_from_rgba(
            c.components()[0],
            c.components()[1],
            c.components()[2],
            c.components()[3],
        ) == c,
{
    assert(Color::spec_from_rgba(c.0[0], c.0[1], c.0[2], c.0[3]).0 =~= c.0);
}

} // verus!
