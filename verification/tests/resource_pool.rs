use pbr_pipeline::resources::TexturePool;
use pbr_pipeline::texture::{PixelFormat, TextureHandle};

fn texture() -> TextureHandle {
    TextureHandle::new_2d(64, 64, PixelFormat::Rgba8).unwrap()
}

#[test]
fn adopt_starts_with_one_live_reference() {
    let mut pool = TexturePool::new();
    let id = pool.adopt(texture());
    assert_eq!(id, 0);
    assert_eq!(pool.len(), 1);
    let entry = pool.entry(id).unwrap();
    assert_eq!(entry.refs, 1);
    assert!(!entry.released);
    assert_eq!(pool.entry(1), None);
}

#[test]
fn shared_resource_is_freed_by_the_last_release_only() {
    // One shader texture shared by three materials, as in the fog
    // scene: three references, freed only on the third release.
    let mut pool = TexturePool::new();
    let id = pool.adopt(texture());
    assert!(pool.retain(id));
    assert!(pool.retain(id));
    assert!(!pool.release(id));
    assert!(!pool.release(id));
    assert!(pool.release(id));
    let entry = pool.entry(id).unwrap();
    assert!(entry.released);
    assert_eq!(entry.refs, 0);
}

#[test]
fn released_entry_is_never_freed_again() {
    let mut pool = TexturePool::new();
    let id = pool.adopt(texture());
    assert!(pool.release(id));
    // A second release of the same id frees nothing and changes nothing.
    assert!(!pool.release(id));
    assert!(pool.entry(id).unwrap().released);
    // Nor can a freed entry be retained.
    assert!(!pool.retain(id));
}

#[test]
fn unknown_ids_are_rejected() {
    let mut pool = TexturePool::new();
    assert!(!pool.retain(3));
    assert!(!pool.release(3));
    assert_eq!(pool.len(), 0);
}
