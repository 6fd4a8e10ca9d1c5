//! Display colours in exact fixed-point arithmetic, and the classification
//! of an image sample as the material whose colour lies nearest.

use vstd::prelude::*;
use crate::material::Material;
use crate::material::MATERIAL_COUNT;

verus! {

/// The channel value that stands for full intensity.
///
/// It is the least common multiple of 1000 and 255, so that the catalog's
/// colours (given in thousandths) and 8-bit image samples are both exact.
pub const CHANNEL_FULL: u16 = 51000;

/// What one step of an 8-bit sample is worth on the scale of `CHANNEL_FULL`.
pub const SAMPLE_STEP: u16 = 200;

/// The largest value of a particle's `alpha`, which is a percentage.
pub const ALPHA_FULL: u8 = 100;

/// The alpha at which the catalog's colours are compared with a sample.
pub const REFERENCE_ALPHA: u8 = 50;

/// An RGBA colour; each channel is a fraction of `CHANNEL_FULL`.
#[derive(Clone, Copy, Debug, PartialEq, Eq, Structural)]
pub struct Color {
    pub red: u16,
    pub green: u16,
    pub blue: u16,
    pub alpha: u16,
}

/// One RGBA sample of a decoded image, eight bits per channel.
#[derive(Clone, Copy, Debug, PartialEq, Eq, Structural)]
pub struct Rgba8 {
    pub red: u8,
    pub green: u8,
    pub blue: u8,
    pub alpha: u8,
}

impl Color {
    /// No channel exceeds full intensity.
    pub open spec fn wf(self) -> bool {
        &&& self.red <= CHANNEL_FULL
        &&& self.green <= CHANNEL_FULL
        &&& self.blue <= CHANNEL_FULL
        &&& self.alpha <= CHANNEL_FULL
    }
}

/// The catalog's colour of `material`, its opacity varied by `alpha` percent.
pub open spec fn material_color(material: Material, alpha: u8) -> Color {
    match material {
        Material::Fire => Color {
            red: 51000,
            green: 0,
            blue: 0,
            alpha: (25500 + 255 * alpha) as u16,
        },
        Material::Gas => Color {
            red: 10200,
            green: 40800,
            blue: 5100,
            alpha: (25500 + 255 * alpha) as u16,
        },
        Material::Air => Color { red: 0, green: 0, blue: 0, alpha: (255 * alpha) as u16 },
        Material::Oil => Color {
            red: 25500,
            green: 25500,
            blue: 25500,
            alpha: (35700 + 153 * alpha) as u16,
        },
        Material::Water => Color {
            red: 0,
            green: 0,
            blue: 51000,
            alpha: (25500 + 255 * alpha) as u16,
        },
        Material::Sand => Color {
            red: 51000,
            green: 51000,
            blue: 5100,
            alpha: (25500 + 255 * alpha) as u16,
        },
        Material::Rock => Color {
            red: 51000,
            green: 51000,
            blue: 51000,
            alpha: (15300 + 255 * alpha) as u16,
        },
    }
}

/// The colour that an image sample stands for.
pub open spec fn sample_color(pixel: Rgba8) -> Color {
    Color {
        red: (SAMPLE_STEP * pixel.red) as u16,
        green: (SAMPLE_STEP * pixel.green) as u16,
        blue: (SAMPLE_STEP * pixel.blue) as u16,
        alpha: (SAMPLE_STEP * pixel.alpha) as u16,
    }
}

/// The square of the difference of two channel values.
pub open spec fn channel_gap(a: u16, b: u16) -> int {
    (a - b) * (a - b)
}

/// The squared Euclidean distance of two colours over their four channels.
pub open spec fn color_distance(a: Color, b: Color) -> int {
    channel_gap(a.red, b.red) + channel_gap(a.green, b.green) + channel_gap(a.blue, b.blue)
        + channel_gap(a.alpha, b.alpha)
}

/// How far the sample lies from the catalog's colour of `material`.
pub open spec fn material_distance(material: Material, pixel: Rgba8) -> int {
    color_distance(material_color(material, REFERENCE_ALPHA), sample_color(pixel))
}

/// `material` is the first in declaration order among the materials whose
/// colour is nearest to the sample.
pub open spec fn is_closest_material(material: Material, pixel: Rgba8) -> bool {
    forall|other: Material|
        {
            &&& material_distance(material, pixel) <= #[trigger] material_distance(other, pixel)
            &&& other.spec_rank() < material.spec_rank() ==> material_distance(material, pixel)
                < material_distance(other, pixel)
        }
}

/// The sample decides its material: no two materials are both the first
/// among the nearest.
pub proof fn lemma_closest_is_unique(a: Material, b: Material, pixel: Rgba8)
    requires
        is_closest_material(a, pixel),
        is_closest_material(b, pixel),
    ensures
        a == b,
{
    assert(material_distance(a, pixel) <= material_distance(b, pixel));
    assert(material_distance(b, pixel) <= material_distance(a, pixel));
}

/// The catalog's colour of `material`, its opacity varied by `alpha` percent.
pub fn get_material_color(material: Material, alpha: u8) -> (color: Color)
    requires
        alpha <= ALPHA_FULL,
    ensures
        color == material_color(material, alpha),
        color.wf(),
{
    let a: u16 = alpha as u16;
    match material {
        Material::Fire => Color { red: 51000, green: 0, blue: 0, alpha: 25500 + 255 * a },
        Material::Gas => Color { red: 10200, green: 40800, blue: 5100, alpha: 25500 + 255 * a },
        Material::Air => Color { red: 0, green: 0, blue: 0, alpha: 255 * a },
        Material::Oil => Color { red: 25500, green: 25500, blue: 25500, alpha: 35700 + 153 * a },
        Material::Water => Color { red: 0, green: 0, blue: 51000, alpha: 25500 + 255 * a },
        Material::Sand => Color { red: 51000, green: 51000, blue: 5100, alpha: 25500 + 255 * a },
        Material::Rock => Color { red: 51000, green: 51000, blue: 51000, alpha: 15300 + 255 * a },
    }
}

/// The colour that an image sample stands for.
pub fn pixel_to_color(pixel: &Rgba8) -> (color: Color)
    ensures
        color == sample_color(*pixel),
        color.wf(),
{
    Color {
        red: SAMPLE_STEP * (pixel.red as u16),
        green: SAMPLE_STEP * (pixel.green as u16),
        blue: SAMPLE_STEP * (pixel.blue as u16),
        alpha: SAMPLE_STEP * (pixel.alpha as u16),
    }
}

fn squared_gap(a: u16, b: u16) -> (gap: u64)
    ensures
        gap == channel_gap(a, b),
        gap <= 65535 * 65535,
{
    let d: u64 = if a >= b {
        (a - b) as u64
    } else {
        (b - a) as u64
    };
    assert(d * d <= 65535 * 65535) by (nonlinear_arith)
        requires
            0 <= d <= 65535,
    ;
    assert(d * d == (a - b) * (a - b)) by (nonlinear_arith)
        requires
            d == a - b || d == b - a,
    ;
    d * d
}

/// The squared distance between a colour and an image sample.
pub fn color_diff(color: Color, pixel: &Rgba8) -> (diff: u64)
    ensures
        diff == color_distance(color, sample_color(*pixel)),
{
    let sample = pixel_to_color(pixel);
    squared_gap(color.red, sample.red) + squared_gap(color.green, sample.green) + squared_gap(
        color.blue,
        sample.blue,
    ) + squared_gap(color.alpha, sample.alpha)
}

/// Classifies an image sample as the material whose catalog colour, taken at
/// the reference alpha, is nearest to it; of several equally near, the one
/// declared first.
pub fn choose_closest_material(pixel: &Rgba8) -> (material: Material)
    ensures
        is_closest_material(material, *pixel),
{
    let mut closest_material = Material::Fire;
    let mut min: u64 = color_diff(get_material_color(Material::Fire, REFERENCE_ALPHA), pixel);
    let mut rank: usize = 1;
    while rank < MATERIAL_COUNT
        invariant
            1 <= rank <= MATERIAL_COUNT,
            min == material_distance(closest_material, *pixel),
            closest_material.spec_rank() < rank,
            forall|other: Material|
                other.spec_rank() < rank ==> {
                    &&& min <= #[trigger] material_distance(other, *pixel)
                    &&& other.spec_rank() < closest_material.spec_rank() ==> min
                        < material_distance(other, *pixel)
                },
        decreases MATERIAL_COUNT - rank,
    {
        let material = Material::at_rank(rank).unwrap();
        let diff = color_diff(get_material_color(material, REFERENCE_ALPHA), pixel);
        if diff < min {
            min = diff;
            closest_material = material;
        }
        rank = rank + 1;
    }
    closest_material
}

} // verus!
