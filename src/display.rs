use vstd::prelude::*;

use crate::units::Au;

verus! {

/// An RGBA color, one byte per channel.
#[derive(Clone, Copy, Debug, PartialEq, Eq, Structural)]
pub struct Color {
    pub r: u8,
    pub g: u8,
    pub b: u8,
    pub a: u8,
}

impl Color {
    pub open spec fn spec_white() -> Color {
        Color { r: 255, g: 255, b: 255, a: 255 }
    }

    pub open spec fn spec_black() -> Color {
        Color { r: 0, g: 0, b: 0, a: 255 }
    }

    pub open spec fn spec_transparent_green() -> Color {
        Color { r: 0, g: 255, b: 0, a: 128 }
    }

    /// Opaque white.
    pub fn white() -> (c: Color)
        ensures
            c == Color::spec_white(),
    {
        Color { r: 255, g: 255, b: 255, a: 255 }
    }

    /// Opaque black.
    pub fn black() -> (c: Color)
        ensures
            c == Color::spec_black(),
    {
        Color { r: 0, g: 0, b: 0, a: 255 }
    }

    /// Half-transparent green, the marker color of clip quads.
    pub fn transparent_green() -> (c: Color)
        ensures
            c == Color::spec_transparent_green(),
    {
        Color { r: 0, g: 255, b: 0, a: 128 }
    }
}

/// An axis-aligned rectangle in fixed-point layout units.
#[derive(Clone, Copy, Debug, PartialEq, Eq, Structural)]
pub struct Rect {
    pub x: Au,
    pub y: Au,
    pub width: Au,
    pub height: Au,
}

/// An axis-aligned rectangle in atlas pixels.
#[derive(Clone, Copy, Debug, PartialEq, Eq, Structural)]
pub struct PixelRect {
    pub x: u32,
    pub y: u32,
    pub width: u32,
    pub height: u32,
}

/// The area outside which an item's content must not be visible.
#[derive(Clone, Copy, Debug, PartialEq, Eq, Structural)]
pub struct ClippingRegion {
    pub main: Rect,
}

/// The fields that every display item has.
#[derive(Clone, Copy, Debug, PartialEq, Eq, Structural)]
pub struct BaseDisplayItem {
    pub bounds: Rect,
    pub clip: ClippingRegion,
}

/// A rectangle filled with one color.
#[derive(Clone, Copy, Debug, PartialEq, Eq, Structural)]
pub struct SolidColorDisplayItem {
    pub base: BaseDisplayItem,
    pub color: Color,
}

/// A reference to a rasterizable asset, such as a glyph run.
#[derive(Clone, Copy, Debug, PartialEq, Eq, Structural)]
pub struct AssetRef(pub u64);

/// A rectangle textured from the atlas region of an asset.
#[derive(Clone, Copy, Debug, PartialEq, Eq, Structural)]
pub struct TextDisplayItem {
    pub base: BaseDisplayItem,
    pub asset: AssetRef,
}

/// One paint instruction.
#[derive(Clone, Copy, Debug, PartialEq, Eq, Structural)]
pub enum DisplayItem {
    SolidColor(SolidColorDisplayItem),
    Text(TextDisplayItem),
}

impl DisplayItem {
    pub open spec fn spec_base(self) -> BaseDisplayItem {
        match self {
            DisplayItem::SolidColor(i) => i.base,
            DisplayItem::Text(i) => i.base,
        }
    }

    /// The fields shared by all variants.
    pub fn base(&self) -> (r: &BaseDisplayItem)
        ensures
            *r == self.spec_base(),
    {
        match self {
            DisplayItem::SolidColor(i) => &i.base,
            DisplayItem::Text(i) => &i.base,
        }
    }
}

} // verus!
