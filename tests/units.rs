use quad_batch::{
    point_to_normalized_device_position, rect_to_normalized_device_position,
    size_to_normalized_device_size, target_rect_to_au, Au, Ratio, Rect, TargetSize, AU_PER_PX,
};

fn value(q: Ratio) -> f64 {
    q.num as f64 / q.den as f64
}

#[test]
fn pixels_round_trip_through_layout_units() {
    assert_eq!(AU_PER_PX, 60);
    assert_eq!(Au::from_px(3), Au(180));
    for px in [-1000, -1, 0, 1, 7, 35791394] {
        assert_eq!(Au::from_px(px).to_px(), px);
    }
}

#[test]
fn to_px_rounds_toward_zero() {
    assert_eq!(Au(119).to_px(), 1);
    assert_eq!(Au(-119).to_px(), -1);
    assert_eq!(Au(59).to_px(), 0);
    assert_eq!(Au(-59).to_px(), 0);
    assert_eq!(Au(i32::MIN).to_px(), -35791394);
}

#[test]
fn full_target_maps_to_unit_square() {
    for (w, h) in [(800, 600), (1, 1), (1920, 1080)] {
        let size = TargetSize { width: w, height: h };
        let d = rect_to_normalized_device_position(&target_rect_to_au(size), size);
        assert_eq!(value(d.x), -1.0);
        assert_eq!(value(d.y), -1.0);
        assert_eq!(value(d.x) + value(d.width), 1.0);
        assert_eq!(value(d.y) + value(d.height), 1.0);
    }
}

#[test]
fn point_and_size_conversion_formulas() {
    let size = TargetSize { width: 800, height: 600 };
    let (x, y) = point_to_normalized_device_position(Au::from_px(200), Au::from_px(450), size);
    assert_eq!(value(x), -0.5);
    assert_eq!(value(y), 0.5);
    let (w, h) = size_to_normalized_device_size(Au::from_px(400), Au::from_px(150), size);
    assert_eq!(value(w), 1.0);
    assert_eq!(value(h), 0.5);
    let d = rect_to_normalized_device_position(
        &Rect { x: Au::from_px(200), y: Au::from_px(450), width: Au::from_px(400), height: Au::from_px(150) },
        size,
    );
    assert_eq!((d.x, d.y, d.width, d.height), (x, y, w, h));
}
