use quad_batch::{
    AssetAtlas, AssetRef, Au, BaseDisplayItem, Batch, Batcher, ClippingRegion, Color, Context,
    DisplayItem, PixelRect, Ratio, Rect, SolidColorDisplayItem, TargetSize, TextDisplayItem,
};

struct FixedAtlas {
    rect: PixelRect,
    requested: Vec<u64>,
}

impl AssetAtlas for FixedAtlas {
    fn require_retained_asset(&mut self, asset: AssetRef) -> PixelRect {
        self.requested.push(asset.0);
        self.rect
    }
}

fn context(width: i32, height: i32) -> Context<FixedAtlas> {
    Context {
        render_target_size: TargetSize { width, height },
        asset_manager: FixedAtlas {
            rect: PixelRect { x: 64, y: 128, width: 32, height: 16 },
            requested: Vec::new(),
        },
    }
}

fn px_rect(x: i32, y: i32, w: i32, h: i32) -> Rect {
    Rect { x: Au::from_px(x), y: Au::from_px(y), width: Au::from_px(w), height: Au::from_px(h) }
}

fn red() -> Color {
    Color { r: 255, g: 0, b: 0, a: 255 }
}

fn solid(bounds: Rect, clip: Rect, color: Color) -> DisplayItem {
    DisplayItem::SolidColor(SolidColorDisplayItem {
        base: BaseDisplayItem { bounds, clip: ClippingRegion { main: clip } },
        color,
    })
}

fn text(bounds: Rect, clip: Rect, asset: u64) -> DisplayItem {
    DisplayItem::Text(TextDisplayItem {
        base: BaseDisplayItem { bounds, clip: ClippingRegion { main: clip } },
        asset: AssetRef(asset),
    })
}

fn r(num: i64, den: i64) -> Ratio {
    Ratio { num, den }
}

fn value(q: Ratio) -> f64 {
    q.num as f64 / q.den as f64
}

fn single(batcher: Batcher) -> Batch {
    let mut batches = batcher.finish();
    assert_eq!(batches.len(), 1);
    batches.pop().unwrap()
}

fn assert_parallel(batch: &Batch) {
    let n = batch.vertices.len();
    assert_eq!(batch.colors.len(), n);
    assert_eq!(batch.buffer_gamma.len(), n);
    assert_eq!(batch.texture_coords.len(), n);
    assert_eq!(n % 4, 0);
    assert_eq!(batch.elements.len() % 6, 0);
    for &e in &batch.elements {
        assert!((e as usize) < n);
    }
}

#[test]
fn solid_color_item_in_800_by_600_target() {
    let mut ctx = context(800, 600);
    let mut batcher = Batcher::new();
    batcher.add(&mut ctx, &solid(px_rect(100, 100, 50, 50), px_rect(0, 0, 800, 600), red()));
    let batch = single(batcher);
    assert_eq!(batch.vertices.len(), 12);
    let content = &batch.vertices[8..12];
    let left = -0.75;
    let right = (150.0 / 800.0 - 0.5) * 2.0;
    let top = -((100.0 / 600.0 - 0.5) * 2.0);
    let bottom = -((150.0 / 600.0 - 0.5) * 2.0);
    let expected = [(left, top), (right, top), (left, bottom), (right, bottom)];
    for (v, (x, y)) in content.iter().zip(expected.iter()) {
        assert!((value(v.x) - x).abs() < 1e-12);
        assert!((value(v.y) - y).abs() < 1e-12);
        assert_eq!(v.z, r(-1, 2));
    }
    assert_eq!(content[0].x, r(-600, 800));
    assert_eq!(content[3].x, r(-500, 800));
    assert_eq!(content[0].y, r(400, 600));
    assert_eq!(content[3].y, r(300, 600));
    for c in &batch.colors[8..12] {
        assert_eq!(*c, red());
    }
}

#[test]
fn two_solid_color_items_share_one_batch() {
    let mut ctx = context(800, 600);
    let mut batcher = Batcher::new();
    batcher.add(&mut ctx, &solid(px_rect(0, 0, 10, 10), px_rect(0, 0, 800, 600), red()));
    batcher.add(&mut ctx, &solid(px_rect(20, 20, 10, 10), px_rect(0, 0, 400, 300), Color::white()));
    assert_eq!(batcher.vertex_count(), 24);
    let batch = single(batcher);
    assert_eq!(batch.vertices.len(), 24);
    assert_eq!(batch.elements.len(), 36);
    assert_eq!(&batch.elements[18..24], &[12, 13, 14, 14, 13, 15]);
    assert_parallel(&batch);
}

#[test]
fn finish_yields_one_batch_for_any_number_of_items() {
    assert_eq!(Batcher::new().finish().len(), 1);
    assert_eq!(Batcher::new().finish()[0].vertices.len(), 0);
    for n in [1usize, 5] {
        let mut ctx = context(320, 200);
        let mut batcher = Batcher::new();
        for i in 0..n {
            batcher.add(&mut ctx, &solid(px_rect(i as i32, 0, 4, 4), px_rect(0, 0, 320, 200), red()));
        }
        let batches = batcher.finish();
        assert_eq!(batches.len(), 1);
        assert_eq!(batches[0].vertices.len(), 12 * n);
    }
}

#[test]
fn solid_color_item_emits_clear_clip_then_clip_then_content() {
    let mut ctx = context(100, 50);
    let mut batcher = Batcher::new();
    let color = Color { r: 1, g: 2, b: 3, a: 4 };
    batcher.add(&mut ctx, &solid(px_rect(10, 10, 20, 20), px_rect(5, 5, 50, 25), color));
    let batch = single(batcher);
    assert_eq!(batch.vertices.len(), 12);
    assert_eq!(batch.elements, vec![0, 1, 2, 2, 1, 3, 4, 5, 6, 6, 5, 7, 8, 10, 9, 9, 10, 11]);
    for i in 0..4 {
        assert_eq!(batch.vertices[i].z, r(1, 2));
        assert_eq!(batch.colors[i], Color::white());
        assert_eq!(batch.vertices[4 + i].z, r(-1, 2));
        assert_eq!(batch.colors[4 + i], Color::transparent_green());
        assert_eq!(batch.vertices[8 + i].z, r(-1, 2));
        assert_eq!(batch.colors[8 + i], color);
    }
    for i in 0..12 {
        assert_eq!(value(batch.buffer_gamma[i].buffer), 0.0);
        assert_eq!(value(batch.buffer_gamma[i].gamma), 0.0);
        assert_eq!(value(batch.texture_coords[i].u), 0.0);
        assert_eq!(value(batch.texture_coords[i].v), 0.0);
    }
    // The clip quad covers pixels 5..55 by 5..30.
    assert_eq!(batch.vertices[4].x, r(-90, 100));
    assert_eq!(batch.vertices[5].x, r(10, 100));
    assert_eq!(batch.vertices[4].y, r(40, 50));
    assert_eq!(batch.vertices[6].y, r(-10, 50));
    assert!(ctx.asset_manager.requested.is_empty());
}

#[test]
fn text_item_is_textured_from_its_atlas_rect() {
    let mut ctx = context(640, 480);
    let mut batcher = Batcher::new();
    batcher.add(&mut ctx, &text(px_rect(8, 8, 32, 16), px_rect(0, 0, 640, 480), 7));
    assert_eq!(ctx.asset_manager.requested, vec![7]);
    let batch = single(batcher);
    assert_eq!(batch.vertices.len(), 12);
    assert_eq!(batch.elements.len(), 18);
    assert_eq!(&batch.elements[12..18], &[8, 10, 9, 9, 10, 11]);
    for i in 0..4 {
        assert_eq!(batch.colors[i], Color::white());
        assert_eq!(batch.colors[4 + i], Color::transparent_green());
        assert_eq!(batch.colors[8 + i], Color::black());
        assert_eq!(value(batch.buffer_gamma[8 + i].buffer), 0.5);
        assert_eq!(value(batch.buffer_gamma[8 + i].gamma), 0.01);
        assert_eq!(value(batch.buffer_gamma[i].buffer), 0.0);
    }
    let uv: Vec<(f64, f64)> =
        batch.texture_coords[8..12].iter().map(|t| (value(t.u), value(t.v))).collect();
    assert_eq!(
        uv,
        vec![
            (64.0 / 1024.0, 128.0 / 1024.0),
            (96.0 / 1024.0, 128.0 / 1024.0),
            (64.0 / 1024.0, 144.0 / 1024.0),
            (96.0 / 1024.0, 144.0 / 1024.0),
        ]
    );
    for t in &batch.texture_coords[0..8] {
        assert_eq!((value(t.u), value(t.v)), (0.0, 0.0));
    }
}

#[test]
fn add_with_atlas_rect_uses_the_given_rect() {
    let mut batcher = Batcher::new();
    let size = TargetSize { width: 64, height: 64 };
    let item = text(px_rect(0, 0, 8, 8), px_rect(0, 0, 64, 64), 1);
    batcher.add_with_atlas_rect(size, &item, PixelRect { x: 1024, y: 0, width: 0, height: 512 });
    let batch = single(batcher);
    assert_eq!(batch.texture_coords[8].u, r(1024, 1024));
    assert_eq!(batch.texture_coords[11].v, r(512, 1024));
}

#[test]
fn mixed_items_keep_parallel_arrays_and_valid_indices() {
    let mut ctx = context(1920, 1080);
    let mut batcher = Batcher::new();
    for i in 0..6 {
        let bounds = px_rect(i * 10, i * 7, 30, 12);
        let clip = px_rect(0, 0, 1920, 1080);
        if i % 2 == 0 {
            batcher.add(&mut ctx, &solid(bounds, clip, red()));
        } else {
            batcher.add(&mut ctx, &text(bounds, clip, i as u64));
        }
        assert_eq!(batcher.vertex_count(), 12 * (i as usize + 1));
    }
    let batch = single(batcher);
    assert_parallel(&batch);
    assert_eq!(batch.elements.len(), 18 * 6);
    assert_eq!(ctx.asset_manager.requested, vec![1, 3, 5]);
}
