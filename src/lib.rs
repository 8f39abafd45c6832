//! Turns display items into flat geometry buffers: vertex positions in
//! normalized device space, colors, shading parameters, texture coordinates
//! and triangle indices. All coordinates are kept as exact rationals.
mod batch;
mod batcher;
mod display;
mod laws;
mod units;

pub use batch::{
    Batch, BufferGamma, Geometry, TexCoord, Vertex, ATLAS_HEIGHT, ATLAS_WIDTH, MAX_VERTICES,
};
pub use batcher::{AssetAtlas, Batcher, Context};
pub use display::{
    AssetRef, BaseDisplayItem, ClippingRegion, Color, DisplayItem, PixelRect, Rect,
    SolidColorDisplayItem, TextDisplayItem,
};
pub use laws::{
    lemma_solid_color_item_quads, lemma_text_item_quads, lemma_two_items_accumulate,
    lemma_with_item_wf, lemma_with_items_wf, with_items,
};
pub use units::{
    lemma_full_target_is_unit_square, lemma_px_round_trip, point_to_normalized_device_position,
    rect_to_normalized_device_position, size_to_normalized_device_size, target_rect_to_au, Au,
    DeviceRect, Ratio, TargetSize, AU_PER_PX, MAX_PX,
};
