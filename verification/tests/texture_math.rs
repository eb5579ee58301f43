use pbr_pipeline::texture::{
    mip_chain_len, mip_dimension, PixelFormat, TextureFilter, TextureHandle,
};

#[test]
fn mip_chain_length_is_log2_plus_one() {
    assert_eq!(mip_chain_len(1), 1);
    assert_eq!(mip_chain_len(2), 2);
    assert_eq!(mip_chain_len(256), 9);
    assert_eq!(mip_chain_len(512), 10);
    // A size between powers of two still halves down to one pixel.
    assert_eq!(mip_chain_len(3), 2);
    assert_eq!(mip_chain_len(300), 9);
}

#[test]
fn mip_dimensions_halve_and_stop_at_one() {
    assert_eq!(mip_dimension(256, 0), 256);
    assert_eq!(mip_dimension(256, 1), 128);
    assert_eq!(mip_dimension(256, 8), 1);
    assert_eq!(mip_dimension(256, 12), 1);
    assert_eq!(mip_dimension(1, 3), 1);
}

#[test]
fn handles_reject_empty_dimensions() {
    assert!(TextureHandle::new_2d(0, 64, PixelFormat::Rgba8).is_none());
    assert!(TextureHandle::new_2d(64, 0, PixelFormat::Rgba8).is_none());
    assert!(TextureHandle::new_cubemap(0, PixelFormat::HdrColor, true).is_none());
}

#[test]
fn cubemap_handles_have_six_faces() {
    let cube = TextureHandle::new_cubemap(256, PixelFormat::HdrColor, true).unwrap();
    assert_eq!(cube.face_count(), 6);
    assert_eq!(cube.mip_count, 9);
    assert_eq!(cube.filter, TextureFilter::Point);
    let flat = TextureHandle::new_2d(800, 450, PixelFormat::Rgba8).unwrap();
    assert_eq!(flat.face_count(), 1);
    assert_eq!(flat.mip_count, 1);
}
