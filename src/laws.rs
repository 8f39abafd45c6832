use vstd::prelude::*;

use crate::batch::{
    clockwise_elements, counterclockwise_elements, dummy_buffer_gamma, dummy_tex_coord, far_depth,
    near_depth, rect_tex_coords, rect_vertices, repeat, text_buffer_gamma, Geometry, MAX_VERTICES,
};
use crate::display::{Color, DisplayItem, PixelRect, SolidColorDisplayItem, TextDisplayItem};
use crate::units::{full_target_rect, TargetSize};

verus! {

/// The geometry after adding `items` in order, the `i`-th text item
/// textured from `atlas_rects[i]`.
pub open spec fn with_items(
    g: Geometry,
    size: TargetSize,
    items: Seq<DisplayItem>,
    atlas_rects: Seq<PixelRect>,
) -> Geometry
    decreases items.len(),
{
    if items.len() == 0 {
        g
    } else {
        with_items(g, size, items.drop_last(), atlas_rects).with_item(
            size,
            items.last(),
            atlas_rects[items.len() - 1],
        )
    }
}

/// Adding one quad keeps the geometry well formed and keeps what was there.
proof fn lemma_with_quad_wf(
    g: Geometry,
    vertices: Seq<crate::batch::Vertex>,
    color: Color,
    bg: crate::batch::BufferGamma,
    tex: Seq<crate::batch::TexCoord>,
    clockwise: bool,
)
    requires
        g.wf(),
        vertices.len() == 4,
        tex.len() == 4,
        g.vertices.len() + 4 <= MAX_VERTICES,
    ensures
        ({
            let h = g.with_quad(vertices, color, bg, tex, clockwise);
            &&& h.wf()
            &&& h.vertices.len() == g.vertices.len() + 4
            &&& h.elements.len() == g.elements.len() + 6
            &&& h.vertices.subrange(0, g.vertices.len() as int) == g.vertices
            &&& h.elements.subrange(0, g.elements.len() as int) == g.elements
        }),
{
    let h = g.with_quad(vertices, color, bg, tex, clockwise);
    let b = g.vertices.len() as int;
    let e = if clockwise { clockwise_elements(b) } else { counterclockwise_elements(b) };
    assert forall|i: int| 0 <= i < h.elements.len() implies h.elements[i] < h.vertices.len() by {
        if i >= g.elements.len() {
            assert(h.elements[i] == e[i - g.elements.len()]);
        }
    }
    assert(h.vertices.subrange(0, b) =~= g.vertices);
    assert(h.elements.subrange(0, g.elements.len() as int) =~= g.elements);
}

/// Adding one display item appends three quads: twelve vertices with their
/// colors, shading parameters and texture coordinates, and eighteen
/// elements, each of which indexes a vertex. What was there stays.
pub proof fn lemma_with_item_wf(g: Geometry, size: TargetSize, item: DisplayItem, atlas_rect: PixelRect)
    requires
        g.wf(),
        g.vertices.len() + 12 <= MAX_VERTICES,
    ensures
        ({
            let h = g.with_item(size, item, atlas_rect);
            &&& h.wf()
            &&& h.vertices.len() == g.vertices.len() + 12
            &&& h.elements.len() == g.elements.len() + 18
            &&& h.vertices.subrange(0, g.vertices.len() as int) == g.vertices
            &&& h.elements.subrange(0, g.elements.len() as int) == g.elements
        }),
{
    let g1 = g.with_clear_clip(size);
    lemma_with_quad_wf(g, rect_vertices(full_target_rect(size), size, far_depth()), Color::spec_white(),
        dummy_buffer_gamma(), repeat(dummy_tex_coord(), 4), true);
    let g2 = g1.with_clip(size, item.spec_base().clip.main);
    lemma_with_quad_wf(g1, rect_vertices(item.spec_base().clip.main, size, near_depth()),
        Color::spec_transparent_green(), dummy_buffer_gamma(), repeat(dummy_tex_coord(), 4), true);
    let h = g.with_item(size, item, atlas_rect);
    match item {
        DisplayItem::SolidColor(i) => {
            lemma_with_quad_wf(g2, rect_vertices(i.base.bounds, size, near_depth()), i.color,
                dummy_buffer_gamma(), repeat(dummy_tex_coord(), 4), false);
        },
        DisplayItem::Text(i) => {
            lemma_with_quad_wf(g2, rect_vertices(i.base.bounds, size, near_depth()), Color::spec_black(),
                text_buffer_gamma(), rect_tex_coords(atlas_rect), false);
        },
    }
    assert(h.vertices.subrange(0, g.vertices.len() as int) =~= g.vertices);
    assert(h.elements.subrange(0, g.elements.len() as int) =~= g.elements);
}

/// After any sequence of display items, the per-vertex sequences have one
/// length, a multiple of four, every element indexes a vertex, and the
/// geometry that was there before is kept unchanged.
pub proof fn lemma_with_items_wf(
    g: Geometry,
    size: TargetSize,
    items: Seq<DisplayItem>,
    atlas_rects: Seq<PixelRect>,
)
    requires
        g.wf(),
        atlas_rects.len() >= items.len(),
        g.vertices.len() + 12 * items.len() <= MAX_VERTICES,
    ensures
        ({
            let h = with_items(g, size, items, atlas_rects);
            &&& h.wf()
            &&& h.vertices.len() == g.vertices.len() + 12 * items.len()
            &&& h.elements.len() == g.elements.len() + 18 * items.len()
            &&& h.vertices.subrange(0, g.vertices.len() as int) == g.vertices
            &&& h.elements.subrange(0, g.elements.len() as int) == g.elements
        }),
    decreases items.len(),
{
    if items.len() > 0 {
        let prev = with_items(g, size, items.drop_last(), atlas_rects);
        lemma_with_items_wf(g, size, items.drop_last(), atlas_rects);
        lemma_with_item_wf(prev, size, items.last(), atlas_rects[items.len() - 1]);
        let h = with_items(g, size, items, atlas_rects);
        assert(h.vertices.subrange(0, g.vertices.len() as int) =~= prev.vertices.subrange(0, g.vertices.len() as int));
        assert(h.elements.subrange(0, g.elements.len() as int) =~= prev.elements.subrange(0, g.elements.len() as int));
    }
}

/// One solid color item appends, in order: a clockwise white quad over
/// the whole target at far depth, a clockwise marker-colored quad over its
/// clip region at near depth, and a counterclockwise quad of its own color
/// over its bounds at near depth; twelve vertices and eighteen elements.
pub proof fn lemma_solid_color_item_quads(
    g: Geometry,
    size: TargetSize,
    item: SolidColorDisplayItem,
    atlas_rect: PixelRect,
)
    requires
        g.wf(),
    ensures
        ({
            let h = g.with_item(size, DisplayItem::SolidColor(item), atlas_rect);
            let b = g.vertices.len() as int;
            let e = g.elements.len() as int;
            &&& h.vertices.len() == b + 12
            &&& h.elements.len() == e + 18
            &&& h.vertices.subrange(b, b + 4) == rect_vertices(full_target_rect(size), size, far_depth())
            &&& h.vertices.subrange(b + 4, b + 8) == rect_vertices(item.base.clip.main, size, near_depth())
            &&& h.vertices.subrange(b + 8, b + 12) == rect_vertices(item.base.bounds, size, near_depth())
            &&& h.colors.subrange(b, b + 4) == repeat(Color::spec_white(), 4)
            &&& h.colors.subrange(b + 4, b + 8) == repeat(Color::spec_transparent_green(), 4)
            &&& h.colors.subrange(b + 8, b + 12) == repeat(item.color, 4)
            &&& h.buffer_gamma.subrange(b, b + 12) == repeat(dummy_buffer_gamma(), 12)
            &&& h.texture_coords.subrange(b, b + 12) == repeat(dummy_tex_coord(), 12)
            &&& h.elements.subrange(e, e + 6) == clockwise_elements(b)
            &&& h.elements.subrange(e + 6, e + 12) == clockwise_elements(b + 4)
            &&& h.elements.subrange(e + 12, e + 18) == counterclockwise_elements(b + 8)
        }),
{
    let h = g.with_item(size, DisplayItem::SolidColor(item), atlas_rect);
    let b = g.vertices.len() as int;
    let e = g.elements.len() as int;
    assert(h.vertices.subrange(b, b + 4) =~= rect_vertices(full_target_rect(size), size, far_depth()));
    assert(h.vertices.subrange(b + 4, b + 8) =~= rect_vertices(item.base.clip.main, size, near_depth()));
    assert(h.vertices.subrange(b + 8, b + 12) =~= rect_vertices(item.base.bounds, size, near_depth()));
    assert(h.colors.subrange(b, b + 4) =~= repeat(Color::spec_white(), 4));
    assert(h.colors.subrange(b + 4, b + 8) =~= repeat(Color::spec_transparent_green(), 4));
    assert(h.colors.subrange(b + 8, b + 12) =~= repeat(item.color, 4));
    assert(h.buffer_gamma.subrange(b, b + 12) =~= repeat(dummy_buffer_gamma(), 12));
    assert(h.texture_coords.subrange(b, b + 12) =~= repeat(dummy_tex_coord(), 12));
    assert(h.elements.subrange(e, e + 6) =~= clockwise_elements(b));
    assert(h.elements.subrange(e + 6, e + 12) =~= clockwise_elements(b + 4));
    assert(h.elements.subrange(e + 12, e + 18) =~= counterclockwise_elements(b + 8));
}

/// One text item appends the same clear-clip and clip quads as any item,
/// then a counterclockwise black quad over its bounds at near depth, with
/// shading parameters (1/2, 1/100) and the texture coordinates of the
/// atlas rectangle resolved for its asset.
pub proof fn lemma_text_item_quads(g: Geometry, size: TargetSize, item: TextDisplayItem, atlas_rect: PixelRect)
    requires
        g.wf(),
    ensures
        ({
            let h = g.with_item(size, DisplayItem::Text(item), atlas_rect);
            let b = g.vertices.len() as int;
            let e = g.elements.len() as int;
            &&& h.vertices.len() == b + 12
            &&& h.elements.len() == e + 18
            &&& h.vertices.subrange(b, b + 4) == rect_vertices(full_target_rect(size), size, far_depth())
            &&& h.vertices.subrange(b + 4, b + 8) == rect_vertices(item.base.clip.main, size, near_depth())
            &&& h.vertices.subrange(b + 8, b + 12) == rect_vertices(item.base.bounds, size, near_depth())
            &&& h.colors.subrange(b, b + 4) == repeat(Color::spec_white(), 4)
            &&& h.colors.subrange(b + 4, b + 8) == repeat(Color::spec_transparent_green(), 4)
            &&& h.colors.subrange(b + 8, b + 12) == repeat(Color::spec_black(), 4)
            &&& h.buffer_gamma.subrange(b, b + 8) == repeat(dummy_buffer_gamma(), 8)
            &&& h.buffer_gamma.subrange(b + 8, b + 12) == repeat(text_buffer_gamma(), 4)
            &&& h.texture_coords.subrange(b, b + 8) == repeat(dummy_tex_coord(), 8)
            &&& h.texture_coords.subrange(b + 8, b + 12) == rect_tex_coords(atlas_rect)
            &&& h.elements.subrange(e, e + 6) == clockwise_elements(b)
            &&& h.elements.subrange(e + 6, e + 12) == clockwise_elements(b + 4)
            &&& h.elements.subrange(e + 12, e + 18) == counterclockwise_elements(b + 8)
        }),
{
    let h = g.with_item(size, DisplayItem::Text(item), atlas_rect);
    let b = g.vertices.len() as int;
    let e = g.elements.len() as int;
    assert(h.vertices.subrange(b, b + 4) =~= rect_vertices(full_target_rect(size), size, far_depth()));
    assert(h.vertices.subrange(b + 4, b + 8) =~= rect_vertices(item.base.clip.main, size, near_depth()));
    assert(h.vertices.subrange(b + 8, b + 12) =~= rect_vertices(item.base.bounds, size, near_depth()));
    assert(h.colors.subrange(b, b + 4) =~= repeat(Color::spec_white(), 4));
    assert(h.colors.subrange(b + 4, b + 8) =~= repeat(Color::spec_transparent_green(), 4));
    assert(h.colors.subrange(b + 8, b + 12) =~= repeat(Color::spec_black(), 4));
    assert(h.buffer_gamma.subrange(b, b + 8) =~= repeat(dummy_buffer_gamma(), 8));
    assert(h.buffer_gamma.subrange(b + 8, b + 12) =~= repeat(text_buffer_gamma(), 4));
    assert(h.texture_coords.subrange(b, b + 8) =~= repeat(dummy_tex_coord(), 8));
    assert(h.texture_coords.subrange(b + 8, b + 12) =~= rect_tex_coords(atlas_rect));
    assert(h.elements.subrange(e, e + 6) =~= clockwise_elements(b));
    assert(h.elements.subrange(e + 6, e + 12) =~= clockwise_elements(b + 4));
    assert(h.elements.subrange(e + 12, e + 18) =~= counterclockwise_elements(b + 8));
}

/// Two items added one after the other land in the same geometry, which
/// grows by the sum of what each adds: twenty-four vertices and
/// thirty-six elements.
pub proof fn lemma_two_items_accumulate(
    g: Geometry,
    size: TargetSize,
    first: DisplayItem,
    first_rect: PixelRect,
    second: DisplayItem,
    second_rect: PixelRect,
)
    requires
        g.wf(),
        g.vertices.len() + 24 <= MAX_VERTICES,
    ensures
        ({
            let h = g.with_item(size, first, first_rect).with_item(size, second, second_rect);
            &&& h.wf()
            &&& h.vertices.len() == g.vertices.len() + 24
            &&& h.elements.len() == g.elements.len() + 36
        }),
{
    lemma_with_item_wf(g, size, first, first_rect);
    lemma_with_item_wf(g.with_item(size, first, first_rect), size, second, second_rect);
}

} // verus!
