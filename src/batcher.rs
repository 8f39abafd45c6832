use vstd::prelude::*;

use crate::batch::{Batch, Geometry, MAX_VERTICES};
use crate::display::{AssetRef, DisplayItem, PixelRect};
use crate::laws::lemma_with_item_wf;
use crate::units::TargetSize;

verus! {

/// The atlas that text items draw from.
pub trait AssetAtlas {
    /// Makes sure that `asset` is rasterized into the atlas and kept
    /// resident there, and returns its rectangle in atlas pixels.
    fn require_retained_asset(&mut self, asset: AssetRef) -> PixelRect;
}

/// What one batching pass renders into.
pub struct Context<A> {
    pub render_target_size: TargetSize,
    pub asset_manager: A,
}

/// Accumulates the geometry of display items into one batch.
pub struct Batcher {
    pending_batch: Batch,
}

impl View for Batcher {
    type V = Geometry;

    closed spec fn view(&self) -> Geometry {
        self.pending_batch@
    }
}

impl Batcher {
    /// A batcher with nothing added yet.
    pub fn new() -> (r: Batcher)
        ensures
            r@ == Geometry::empty(),
            r@.wf(),
    {
        Batcher { pending_batch: Batch::new() }
    }

    /// Appends the geometry of `display_item`, with `atlas_rect` as the
    /// atlas region of its asset if it is a text item.
    pub fn add_with_atlas_rect(&mut self, size: TargetSize, display_item: &DisplayItem, atlas_rect: PixelRect)
        requires
            size.wf(),
            old(self)@.vertices.len() + 12 <= MAX_VERTICES,
        ensures
            final(self)@ == old(self)@.with_item(size, *display_item, atlas_rect),
            old(self)@.wf() ==> final(self)@.wf(),
    {
        proof {
            if old(self)@.wf() {
                lemma_with_item_wf(old(self)@, size, *display_item, atlas_rect);
            }
        }
        self.pending_batch.clear_clip(size);
        self.pending_batch.add_clip(size, &display_item.base().clip.main);
        match display_item {
            DisplayItem::SolidColor(item) => {
                self.pending_batch.add_solid_color_rect(size, &item.base.bounds, item.color);
            },
            DisplayItem::Text(item) => {
                self.pending_batch.add_text(size, &item.base.bounds, atlas_rect);
            },
        }
    }

    /// Appends the geometry of `display_item`: a quad that clears the clip
    /// mask, a quad for its clip region, and its content quad. A text item
    /// first has its asset made resident in the atlas.
    pub fn add<A: AssetAtlas>(&mut self, context: &mut Context<A>, display_item: &DisplayItem)
        requires
            old(context).render_target_size.wf(),
            old(self)@.vertices.len() + 12 <= MAX_VERTICES,
        ensures
            final(context).render_target_size == old(context).render_target_size,
            exists|r: PixelRect|
                final(self)@ == old(self)@.with_item(old(context).render_target_size, *display_item, r),
            display_item is SolidColor ==> final(self)@ == old(self)@.with_item(
                old(context).render_target_size,
                *display_item,
                PixelRect { x: 0, y: 0, width: 0, height: 0 },
            ),
            old(self)@.wf() ==> final(self)@.wf(),
    {
        let size = context.render_target_size;
        let atlas_rect = match display_item {
            DisplayItem::SolidColor(_) => PixelRect { x: 0, y: 0, width: 0, height: 0 },
            DisplayItem::Text(item) => context.asset_manager.require_retained_asset(item.asset),
        };
        self.add_with_atlas_rect(size, display_item, atlas_rect);
    }

    /// Number of vertices added so far.
    pub fn vertex_count(&self) -> (r: usize)
        ensures
            r == self@.vertices.len(),
    {
        self.pending_batch.vertices.len()
    }

    /// Hands off the accumulated geometry as a single batch.
    pub fn finish(self) -> (r: Vec<Batch>)
        ensures
            r@.len() == 1,
            r@[0]@ == self@,
    {
        let mut r = Vec::new();
        r.push(self.pending_batch);
        r
    }
}

} // verus!
