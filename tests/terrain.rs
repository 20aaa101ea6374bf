use scene_kit::terrain::{height_sample_count, HeightMapError};

#[test]
fn whole_samples() {
    assert!(matches!(height_sample_count(64), Ok(16)));
    assert!(matches!(height_sample_count(0), Ok(0)));
}

#[test]
fn leftover_bytes_are_reported() {
    assert!(matches!(height_sample_count(65), Err(HeightMapError::InvalidSize(1))));
    assert!(matches!(height_sample_count(7), Err(HeightMapError::InvalidSize(3))));
}
