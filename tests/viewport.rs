use scene_kit::viewport::{AspectRatio, Extent3, Viewport};

#[test]
fn resize_takes_nonzero_size() {
    let mut v = Viewport::new(800, 600);
    assert!(v.resize(1024, 768));
    assert_eq!(v, Viewport { width: 1024, height: 768 });
    assert_eq!(v.aspect_ratio(), AspectRatio { numerator: 1024, denominator: 768 });
    assert_eq!(
        v.depth_extent(),
        Extent3 { width: 1024, height: 768, depth_or_array_layers: 1 }
    );
}

#[test]
fn resize_ignores_zero_width_or_height() {
    let mut v = Viewport::new(800, 600);
    assert!(!v.resize(0, 768));
    assert!(!v.resize(1024, 0));
    assert!(!v.resize(0, 0));
    assert_eq!(v, Viewport { width: 800, height: 600 });
}

#[test]
fn aspect_ratio_as_float_is_width_over_height() {
    let mut v = Viewport::new(1, 1);
    v.resize(1920, 1080);
    let a = v.aspect_ratio();
    assert_eq!(a.numerator as f32 / a.denominator as f32, 1920.0f32 / 1080.0f32);
}

#[test]
fn depth_extent_follows_initial_size() {
    let v = Viewport::new(640, 480);
    assert_eq!(
        v.depth_extent(),
        Extent3 { width: 640, height: 480, depth_or_array_layers: 1 }
    );
}
