use vstd::prelude::*;
use vstd::string::*;

use crate::request::{CropError, CropRect, GeometryPart, OutputSettings};
use crate::text::{decimal, push_decimal};

verus! {

/// The encoder-safe value of one dimension: at least 2, and even.
pub open spec fn even_dimension(v: nat) -> nat {
    if v < 2 {
        2
    } else {
        (v - v % 2) as nat
    }
}

/// Coerces a dimension to an even value of at least 2: values below 2 become 2,
/// others are rounded down to the nearest even number.
pub fn make_even(value: u32) -> (r: u32)
    ensures
        r as nat == even_dimension(value as nat),
        r % 2 == 0,
        r >= 2,
        value < 2 ==> r == 2,
        value >= 2 ==> r <= value && value < r + 2,
{
    let adjusted: u32 = if value < 2 { 2 } else { value };
    adjusted - (adjusted % 2)
}

/// Normalizing an already normalized dimension leaves it unchanged.
pub proof fn lemma_even_dimension_idempotent(v: nat)
    ensures
        even_dimension(even_dimension(v)) == even_dimension(v),
        v < 2 ==> even_dimension(v) == 2,
        v >= 2 ==> even_dimension(v) % 2 == 0 && even_dimension(v) <= v && v
            < even_dimension(v) + 2,
{
}

/// Crop and output sizes after normalization.
#[derive(Clone, Copy, Debug, PartialEq, Eq, Structural)]
pub struct NormalizedGeometry {
    pub crop: CropRect,
    pub out_width: u32,
    pub out_height: u32,
}

impl NormalizedGeometry {
    /// Every value is even and at least 2.
    pub open spec fn wf(self) -> bool {
        &&& self.crop.x % 2 == 0 && self.crop.x >= 2
        &&& self.crop.y % 2 == 0 && self.crop.y >= 2
        &&& self.crop.width % 2 == 0 && self.crop.width >= 2
        &&& self.crop.height % 2 == 0 && self.crop.height >= 2
        &&& self.out_width % 2 == 0 && self.out_width >= 2
        &&& self.out_height % 2 == 0 && self.out_height >= 2
    }
}

/// The crop rectangle with each value coerced by `even_dimension`.
pub open spec fn normalized_crop(c: CropRect) -> CropRect {
    CropRect {
        x: even_dimension(c.x as nat) as u32,
        y: even_dimension(c.y as nat) as u32,
        width: even_dimension(c.width as nat) as u32,
        height: even_dimension(c.height as nat) as u32,
    }
}

/// The normalized crop rectangle and output size of a request.
pub open spec fn normalized(c: CropRect, out_width: u32, out_height: u32) -> NormalizedGeometry {
    NormalizedGeometry {
        crop: normalized_crop(c),
        out_width: even_dimension(out_width as nat) as u32,
        out_height: even_dimension(out_height as nat) as u32,
    }
}

/// Coerces every value of the rectangle to an even value of at least 2.
pub fn normalize_crop(c: &CropRect) -> (r: CropRect)
    ensures
        r == normalized_crop(*c),
{
    CropRect {
        x: make_even(c.x),
        y: make_even(c.y),
        width: make_even(c.width),
        height: make_even(c.height),
    }
}

/// Normalizes the crop rectangle and the output size; a size that collapsed to
/// zero is refused, the crop before the output.
pub fn normalize_geometry(crop: &CropRect, output: &OutputSettings) -> (r: Result<
    NormalizedGeometry,
    CropError,
>)
    ensures
        r == Ok::<NormalizedGeometry, CropError>(normalized(*crop, output.width, output.height)),
        r is Ok ==> r->Ok_0.wf(),
{
    let c = normalize_crop(crop);
    let out_width = make_even(output.width);
    let out_height = make_even(output.height);
    if c.width == 0 || c.height == 0 {
        return Err(CropError::InvalidGeometry(GeometryPart::Crop));
    }
    if out_width == 0 || out_height == 0 {
        return Err(CropError::InvalidGeometry(GeometryPart::Output));
    }
    Ok(NormalizedGeometry { crop: c, out_width, out_height })
}

/// The crop-then-scale filter expression. The crop size is bounded by the input
/// frame (`in_w`, `in_h`, resolved by the encoder at run time) and its corner
/// is clamped so that the region stays inside the frame; the separators inside
/// `min` and `max` are escaped as `\,`.
pub open spec fn filter_text(g: NormalizedGeometry) -> Seq<char> {
    let cw = decimal(g.crop.width as nat);
    let ch = decimal(g.crop.height as nat);
    let cx = decimal(g.crop.x as nat);
    let cy = decimal(g.crop.y as nat);
    "crop=w=min("@ + cw + "\\,in_w):h=min("@ + ch + "\\,in_h):x=min(max("@ + cx
        + "\\,0)\\,in_w-min("@ + cw + "\\,in_w)):y=min(max("@ + cy + "\\,0)\\,in_h-min("@
        + ch + "\\,in_h)),scale="@ + decimal(g.out_width as nat) + ":"@ + decimal(
        g.out_height as nat,
    )
}

/// Builds the crop-then-scale filter expression of normalized geometry.
pub fn build_filter(g: &NormalizedGeometry) -> (r: String)
    ensures
        r@ == filter_text(*g),
{
    let mut s = String::from_str("crop=w=min(");
    push_decimal(&mut s, g.crop.width as u64);
    s.append("\\,in_w):h=min(");
    push_decimal(&mut s, g.crop.height as u64);
    s.append("\\,in_h):x=min(max(");
    push_decimal(&mut s, g.crop.x as u64);
    s.append("\\,0)\\,in_w-min(");
    push_decimal(&mut s, g.crop.width as u64);
    s.append("\\,in_w)):y=min(max(");
    push_decimal(&mut s, g.crop.y as u64);
    s.append("\\,0)\\,in_h-min(");
    push_decimal(&mut s, g.crop.height as u64);
    s.append("\\,in_h)),scale=");
    push_decimal(&mut s, g.out_width as u64);
    s.append(":");
    push_decimal(&mut s, g.out_height as u64);
    assert(s@ =~= filter_text(*g));
    s
}

} // verus!
