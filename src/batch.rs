use vstd::prelude::*;

use crate::display::{Color, DisplayItem, PixelRect, Rect};
use crate::units::{
    rect_ndc, rect_to_normalized_device_position, target_rect_to_au, full_target_rect, Ratio,
    TargetSize,
};

verus! {

/// Width of the shared atlas texture, in pixels.
pub const ATLAS_WIDTH: u32 = 1024;

/// Height of the shared atlas texture, in pixels.
pub const ATLAS_HEIGHT: u32 = 1024;

/// One more than the largest index an element can hold.
pub const MAX_VERTICES: u64 = 0x1_0000_0000;

/// A vertex in normalized device space; `z` is its depth.
#[derive(Clone, Copy, Debug, PartialEq, Eq, Structural)]
pub struct Vertex {
    pub x: Ratio,
    pub y: Ratio,
    pub z: Ratio,
}

/// Normalized texture coordinates into the atlas.
#[derive(Clone, Copy, Debug, PartialEq, Eq, Structural)]
pub struct TexCoord {
    pub u: Ratio,
    pub v: Ratio,
}

/// Edge anti-aliasing parameters of distance-field content.
#[derive(Clone, Copy, Debug, PartialEq, Eq, Structural)]
pub struct BufferGamma {
    pub buffer: Ratio,
    pub gamma: Ratio,
}

pub open spec fn zero() -> Ratio {
    Ratio { num: 0, den: 1 }
}

/// Depth of the quads that must win the depth test.
pub open spec fn near_depth() -> Ratio {
    Ratio { num: -1i64, den: 2 }
}

/// Depth of the quads that reset the clip mask.
pub open spec fn far_depth() -> Ratio {
    Ratio { num: 1, den: 2 }
}

/// Shading parameters of text: buffer 1/2, gamma 1/100.
pub open spec fn text_buffer_gamma() -> BufferGamma {
    BufferGamma { buffer: Ratio { num: 1, den: 2 }, gamma: Ratio { num: 1, den: 100 } }
}

pub open spec fn dummy_buffer_gamma() -> BufferGamma {
    BufferGamma { buffer: zero(), gamma: zero() }
}

pub open spec fn dummy_tex_coord() -> TexCoord {
    TexCoord { u: zero(), v: zero() }
}

pub open spec fn repeat<T>(x: T, n: nat) -> Seq<T> {
    Seq::new(n, |_i: int| x)
}

pub open spec fn neg(r: Ratio) -> Ratio {
    Ratio { num: -r.num as i64, den: r.den }
}

pub open spec fn sum(a: Ratio, b: Ratio) -> Ratio {
    Ratio { num: (a.num + b.num) as i64, den: a.den }
}

/// The four corners of `rect` in device space, y flipped to grow upward,
/// in the order top-left, top-right, bottom-left, bottom-right.
pub open spec fn rect_vertices(rect: Rect, size: TargetSize, z: Ratio) -> Seq<Vertex> {
    let d = rect_ndc(rect, size);
    let max_x = sum(d.x, d.width);
    let max_y = sum(d.y, d.height);
    seq![
        Vertex { x: d.x, y: neg(d.y), z },
        Vertex { x: max_x, y: neg(d.y), z },
        Vertex { x: d.x, y: neg(max_y), z },
        Vertex { x: max_x, y: neg(max_y), z },
    ]
}

/// The four corners of an atlas rectangle, normalized by the atlas size,
/// in the same corner order as `rect_vertices`.
pub open spec fn rect_tex_coords(r: PixelRect) -> Seq<TexCoord> {
    let u0 = Ratio { num: r.x as i64, den: ATLAS_WIDTH as i64 };
    let v0 = Ratio { num: r.y as i64, den: ATLAS_HEIGHT as i64 };
    let u1 = Ratio { num: (r.x + r.width) as i64, den: ATLAS_WIDTH as i64 };
    let v1 = Ratio { num: (r.y + r.height) as i64, den: ATLAS_HEIGHT as i64 };
    seq![
        TexCoord { u: u0, v: v0 },
        TexCoord { u: u1, v: v0 },
        TexCoord { u: u0, v: v1 },
        TexCoord { u: u1, v: v1 },
    ]
}

/// Two clockwise triangles over the quad whose first vertex is `b`.
pub open spec fn clockwise_elements(b: int) -> Seq<u32> {
    seq![b as u32, (b + 1) as u32, (b + 2) as u32, (b + 2) as u32, (b + 1) as u32, (b + 3) as u32]
}

/// Two counterclockwise triangles over the quad whose first vertex is `b`.
pub open spec fn counterclockwise_elements(b: int) -> Seq<u32> {
    seq![b as u32, (b + 2) as u32, (b + 1) as u32, (b + 1) as u32, (b + 2) as u32, (b + 3) as u32]
}

/// The contents of a batch: five sequences, four of them per vertex.
pub struct Geometry {
    pub vertices: Seq<Vertex>,
    pub colors: Seq<Color>,
    pub buffer_gamma: Seq<BufferGamma>,
    pub texture_coords: Seq<TexCoord>,
    pub elements: Seq<u32>,
}

impl Geometry {
    pub open spec fn empty() -> Geometry {
        Geometry {
            vertices: Seq::empty(),
            colors: Seq::empty(),
            buffer_gamma: Seq::empty(),
            texture_coords: Seq::empty(),
            elements: Seq::empty(),
        }
    }

    /// The per-vertex sequences have one length, a whole number of quads,
    /// and every element indexes a vertex.
    pub open spec fn wf(self) -> bool {
        &&& self.colors.len() == self.vertices.len()
        &&& self.buffer_gamma.len() == self.vertices.len()
        &&& self.texture_coords.len() == self.vertices.len()
        &&& self.vertices.len() % 4 == 0
        &&& forall|i: int| 0 <= i < self.elements.len() ==> self.elements[i] < self.vertices.len()
    }

    /// This geometry followed by one quad: four vertices with their
    /// colors, shading parameters and texture coordinates, and the six
    /// elements of two triangles of the given winding.
    pub open spec fn with_quad(
        self,
        vertices: Seq<Vertex>,
        color: Color,
        buffer_gamma: BufferGamma,
        texture_coords: Seq<TexCoord>,
        clockwise: bool,
    ) -> Geometry {
        let b = self.vertices.len() as int;
        Geometry {
            vertices: self.vertices + vertices,
            colors: self.colors + repeat(color, 4),
            buffer_gamma: self.buffer_gamma + repeat(buffer_gamma, 4),
            texture_coords: self.texture_coords + texture_coords,
            elements: self.elements + if clockwise {
                clockwise_elements(b)
            } else {
                counterclockwise_elements(b)
            },
        }
    }

    /// The quad that resets the clip mask: the whole target, far, white.
    pub open spec fn with_clear_clip(self, size: TargetSize) -> Geometry {
        self.with_quad(
            rect_vertices(full_target_rect(size), size, far_depth()),
            Color::spec_white(),
            dummy_buffer_gamma(),
            repeat(dummy_tex_coord(), 4),
            true,
        )
    }

    /// The quad that marks an item's visible area: near, marker color.
    pub open spec fn with_clip(self, size: TargetSize, clip: Rect) -> Geometry {
        self.with_quad(
            rect_vertices(clip, size, near_depth()),
            Color::spec_transparent_green(),
            dummy_buffer_gamma(),
            repeat(dummy_tex_coord(), 4),
            true,
        )
    }

    /// The content quad of a solid color item.
    pub open spec fn with_solid_color_rect(self, size: TargetSize, rect: Rect, color: Color) -> Geometry {
        self.with_quad(
            rect_vertices(rect, size, near_depth()),
            color,
            dummy_buffer_gamma(),
            repeat(dummy_tex_coord(), 4),
            false,
        )
    }

    /// The content quad of a text item whose atlas region is `atlas_rect`.
    pub open spec fn with_text(self, size: TargetSize, bounds: Rect, atlas_rect: PixelRect) -> Geometry {
        self.with_quad(
            rect_vertices(bounds, size, near_depth()),
            Color::spec_black(),
            text_buffer_gamma(),
            rect_tex_coords(atlas_rect),
            false,
        )
    }

    /// The three quads of one display item: clear-clip, clip, content.
    /// A text item's content is textured from `atlas_rect`; a solid color
    /// item does not read it.
    pub open spec fn with_item(self, size: TargetSize, item: DisplayItem, atlas_rect: PixelRect) -> Geometry {
        let g = self.with_clear_clip(size).with_clip(size, item.spec_base().clip.main);
        match item {
            DisplayItem::SolidColor(i) => g.with_solid_color_rect(size, i.base.bounds, i.color),
            DisplayItem::Text(i) => g.with_text(size, i.base.bounds, atlas_rect),
        }
    }
}

/// Geometry ready for upload: parallel per-vertex arrays and triangle indices.
pub struct Batch {
    pub vertices: Vec<Vertex>,
    pub colors: Vec<Color>,
    pub buffer_gamma: Vec<BufferGamma>,
    pub texture_coords: Vec<TexCoord>,
    pub elements: Vec<u32>,
}

impl View for Batch {
    type V = Geometry;

    open spec fn view(&self) -> Geometry {
        Geometry {
            vertices: self.vertices@,
            colors: self.colors@,
            buffer_gamma: self.buffer_gamma@,
            texture_coords: self.texture_coords@,
            elements: self.elements@,
        }
    }
}

impl Batch {
    pub fn new() -> (r: Batch)
        ensures
            r@ == Geometry::empty(),
    {
        Batch {
            vertices: Vec::new(),
            colors: Vec::new(),
            buffer_gamma: Vec::new(),
            texture_coords: Vec::new(),
            elements: Vec::new(),
        }
    }

    /// Appends the four corners of `rect` at depth `z`.
    fn add_vertices_for_rect(&mut self, size: TargetSize, rect: &Rect, z: Ratio)
        requires
            size.wf(),
        ensures
            final(self)@ == (Geometry { vertices: old(self)@.vertices + rect_vertices(*rect, size, z), ..old(self)@ }),
    {
        let d = rect_to_normalized_device_position(rect, size);
        let max_x = Ratio { num: d.x.num + d.width.num, den: d.x.den };
        let max_y = Ratio { num: d.y.num + d.height.num, den: d.y.den };
        let top = Ratio { num: -d.y.num, den: d.y.den };
        let bottom = Ratio { num: -max_y.num, den: max_y.den };
        self.vertices.push(Vertex { x: d.x, y: top, z });
        self.vertices.push(Vertex { x: max_x, y: top, z });
        self.vertices.push(Vertex { x: d.x, y: bottom, z });
        self.vertices.push(Vertex { x: max_x, y: bottom, z });
        proof {
            assert(self.vertices@ =~= old(self).vertices@ + rect_vertices(*rect, size, z));
        }
    }

    /// Appends `color` `count` times.
    fn add_solid_colors(&mut self, count: usize, color: Color)
        ensures
            final(self)@ == (Geometry { colors: old(self)@.colors + repeat(color, count as nat), ..old(self)@ }),
    {
        let mut i: usize = 0;
        while i < count
            invariant
                i <= count,
                self@ == (Geometry { colors: old(self)@.colors + repeat(color, i as nat), ..old(self)@ }),
            decreases count - i,
        {
            self.colors.push(color);
            proof {
                assert(self.colors@ =~= old(self).colors@ + repeat(color, (i + 1) as nat));
            }
            i += 1;
        }
    }

    /// Appends the shading parameters `p` `count` times.
    fn add_buffer_gamma(&mut self, count: usize, p: BufferGamma)
        ensures
            final(self)@ == (Geometry { buffer_gamma: old(self)@.buffer_gamma + repeat(p, count as nat), ..old(self)@ }),
    {
        let mut i: usize = 0;
        while i < count
            invariant
                i <= count,
                self@ == (Geometry { buffer_gamma: old(self)@.buffer_gamma + repeat(p, i as nat), ..old(self)@ }),
            decreases count - i,
        {
            self.buffer_gamma.push(p);
            proof {
                assert(self.buffer_gamma@ =~= old(self).buffer_gamma@ + repeat(p, (i + 1) as nat));
            }
            i += 1;
        }
    }

    /// Appends zero shading parameters `count` times.
    fn add_dummy_buffer_gamma(&mut self, count: usize)
        ensures
            final(self)@ == (Geometry {
                buffer_gamma: old(self)@.buffer_gamma + repeat(dummy_buffer_gamma(), count as nat),
                ..old(self)@
            }),
    {
        self.add_buffer_gamma(count, BufferGamma { buffer: Ratio { num: 0, den: 1 }, gamma: Ratio { num: 0, den: 1 } })
    }

    /// Appends the four corners of the atlas rectangle `r`, normalized.
    fn add_texture_coords_for_rect(&mut self, r: PixelRect)
        ensures
            final(self)@ == (Geometry { texture_coords: old(self)@.texture_coords + rect_tex_coords(r), ..old(self)@ }),
    {
        let u0 = Ratio { num: r.x as i64, den: ATLAS_WIDTH as i64 };
        let v0 = Ratio { num: r.y as i64, den: ATLAS_HEIGHT as i64 };
        let u1 = Ratio { num: r.x as i64 + r.width as i64, den: ATLAS_WIDTH as i64 };
        let v1 = Ratio { num: r.y as i64 + r.height as i64, den: ATLAS_HEIGHT as i64 };
        self.texture_coords.push(TexCoord { u: u0, v: v0 });
        self.texture_coords.push(TexCoord { u: u1, v: v0 });
        self.texture_coords.push(TexCoord { u: u0, v: v1 });
        self.texture_coords.push(TexCoord { u: u1, v: v1 });
        proof {
            assert(self.texture_coords@ =~= old(self).texture_coords@ + rect_tex_coords(r));
        }
    }

    /// Appends zero texture coordinates `count` times.
    fn add_dummy_texture_coords(&mut self, count: usize)
        ensures
            final(self)@ == (Geometry {
                texture_coords: old(self)@.texture_coords + repeat(dummy_tex_coord(), count as nat),
                ..old(self)@
            }),
    {
        let c = TexCoord { u: Ratio { num: 0, den: 1 }, v: Ratio { num: 0, den: 1 } };
        let mut i: usize = 0;
        while i < count
            invariant
                i <= count,
                c == dummy_tex_coord(),
                self@ == (Geometry {
                    texture_coords: old(self)@.texture_coords + repeat(c, i as nat),
                    ..old(self)@
                }),
            decreases count - i,
        {
            self.texture_coords.push(c);
            proof {
                assert(self.texture_coords@ =~= old(self).texture_coords@ + repeat(c, (i + 1) as nat));
            }
            i += 1;
        }
    }

    /// Appends two clockwise triangles over the last four vertices.
    fn add_elements_for_clockwise_wound_rect(&mut self)
        requires
            4 <= old(self).vertices@.len() <= MAX_VERTICES,
        ensures
            final(self)@ == (Geometry {
                elements: old(self)@.elements + clockwise_elements(old(self)@.vertices.len() - 4),
                ..old(self)@
            }),
    {
        let bottom_right: u32 = (self.vertices.len() - 1) as u32;
        let bottom_left = bottom_right - 1;
        let top_right = bottom_left - 1;
        let top_left = top_right - 1;
        self.elements.push(top_left);
        self.elements.push(top_right);
        self.elements.push(bottom_left);
        self.elements.push(bottom_left);
        self.elements.push(top_right);
        self.elements.push(bottom_right);
        proof {
            assert(self.elements@ =~= old(self).elements@ + clockwise_elements(old(self)@.vertices.len() - 4));
        }
    }

    /// Appends two counterclockwise triangles over the last four vertices.
    fn add_elements_for_counterclockwise_wound_rect(&mut self)
        requires
            4 <= old(self).vertices@.len() <= MAX_VERTICES,
        ensures
            final(self)@ == (Geometry {
                elements: old(self)@.elements + counterclockwise_elements(old(self)@.vertices.len() - 4),
                ..old(self)@
            }),
    {
        let bottom_right: u32 = (self.vertices.len() - 1) as u32;
        let bottom_left = bottom_right - 1;
        let top_right = bottom_left - 1;
        let top_left = top_right - 1;
        self.elements.push(top_left);
        self.elements.push(bottom_left);
        self.elements.push(top_right);
        self.elements.push(top_right);
        self.elements.push(bottom_left);
        self.elements.push(bottom_right);
        proof {
            assert(self.elements@ =~= old(self).elements@ + counterclockwise_elements(old(self)@.vertices.len() - 4));
        }
    }

    /// Appends the quad that resets the clip mask before an item.
    pub(crate) fn clear_clip(&mut self, size: TargetSize)
        requires
            size.wf(),
            old(self)@.vertices.len() + 4 <= MAX_VERTICES,
        ensures
            final(self)@ == old(self)@.with_clear_clip(size),
    {
        let rect = target_rect_to_au(size);
        self.add_vertices_for_rect(size, &rect, Ratio { num: 1, den: 2 });
        self.add_solid_colors(4, Color::white());
        self.add_dummy_buffer_gamma(4);
        self.add_dummy_texture_coords(4);
        self.add_elements_for_clockwise_wound_rect();
        proof {
            assert(self@ =~= old(self)@.with_clear_clip(size));
        }
    }

    /// Appends the quad that marks the visible area `clip`.
    pub(crate) fn add_clip(&mut self, size: TargetSize, clip: &Rect)
        requires
            size.wf(),
            old(self)@.vertices.len() + 4 <= MAX_VERTICES,
        ensures
            final(self)@ == old(self)@.with_clip(size, *clip),
    {
        self.add_vertices_for_rect(size, clip, Ratio { num: -1, den: 2 });
        self.add_solid_colors(4, Color::transparent_green());
        self.add_dummy_buffer_gamma(4);
        self.add_dummy_texture_coords(4);
        self.add_elements_for_clockwise_wound_rect();
        proof {
            assert(self@ =~= old(self)@.with_clip(size, *clip));
        }
    }

    /// Appends the content quad of a solid color item.
    pub(crate) fn add_solid_color_rect(&mut self, size: TargetSize, rect: &Rect, color: Color)
        requires
            size.wf(),
            old(self)@.vertices.len() + 4 <= MAX_VERTICES,
        ensures
            final(self)@ == old(self)@.with_solid_color_rect(size, *rect, color),
    {
        self.add_vertices_for_rect(size, rect, Ratio { num: -1, den: 2 });
        self.add_solid_colors(4, color);
        self.add_dummy_buffer_gamma(4);
        self.add_dummy_texture_coords(4);
        self.add_elements_for_counterclockwise_wound_rect();
        proof {
            assert(self@ =~= old(self)@.with_solid_color_rect(size, *rect, color));
        }
    }

    /// Appends the content quad of a text item whose asset lies at
    /// `atlas_rect` in the atlas.
    pub(crate) fn add_text(&mut self, size: TargetSize, bounds: &Rect, atlas_rect: PixelRect)
        requires
            size.wf(),
            old(self)@.vertices.len() + 4 <= MAX_VERTICES,
        ensures
            final(self)@ == old(self)@.with_text(size, *bounds, atlas_rect),
    {
        self.add_vertices_for_rect(size, bounds, Ratio { num: -1, den: 2 });
        self.add_solid_colors(4, Color::black());
        self.add_buffer_gamma(4, BufferGamma { buffer: Ratio { num: 1, den: 2 }, gamma: Ratio { num: 1, den: 100 } });
        self.add_texture_coords_for_rect(atlas_rect);
        self.add_elements_for_counterclockwise_wound_rect();
        proof {
            assert(self@ =~= old(self)@.with_text(size, *bounds, atlas_rect));
        }
    }
}

} // verus!
