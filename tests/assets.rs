use pathrs::assets::{spirv_words, AssetData, AssetError, AssetManager};
use pathrs::headless::TracerHeadlessOutput;
use pathrs::resource::{ReleaseGuard, ReleaseOutcome};

#[test]
fn load_asset_names_path_and_keeps_bytes() {
    let manager = AssetManager::new("/opt/app/assets".to_string());
    assert_eq!(manager.asset_path("shaders/shader.comp.spv"), "/opt/app/assets/shaders/shader.comp.spv");
    let asset = manager.load_asset("shaders/a.spv", vec![1, 2, 3, 4]);
    assert_eq!(asset.meta.id, "shaders/a.spv");
    assert_eq!(asset.meta.path, "/opt/app/assets/shaders/a.spv");
    assert_eq!(asset.get_spirv().unwrap(), &[1u8, 2, 3, 4][..]);
    match asset.data {
        AssetData::SPIRVShader(bytes) => assert_eq!(bytes, vec![1, 2, 3, 4]),
    }
}

#[test]
fn spirv_words_are_little_endian() {
    let words = spirv_words(&[0x03, 0x02, 0x23, 0x07, 0xff, 0, 0, 0x80]).unwrap();
    assert_eq!(words, vec![0x0723_0203, 0x8000_00ff]);
    assert_eq!(spirv_words(&[]).unwrap(), Vec::<u32>::new());
    assert_eq!(spirv_words(&[1, 2, 3]), Err(AssetError::NotWordAligned));
}

#[test]
fn rgba_is_packed_to_rgb() {
    let out = TracerHeadlessOutput::from_rgba8888(2, 1, vec![1, 2, 3, 255, 4, 5, 6, 128]);
    assert_eq!(out.width, 2);
    assert_eq!(out.height, 1);
    assert_eq!(out.rgb888, vec![1, 2, 3, 4, 5, 6]);
    let partial = TracerHeadlessOutput::from_rgba8888(2, 1, vec![1, 2, 3, 255, 7, 8, 9]);
    assert_eq!(partial.rgb888, vec![1, 2, 3, 7, 8, 9]);
    assert!(TracerHeadlessOutput::from_rgba8888(0, 0, vec![]).rgb888.is_empty());
}

#[test]
fn release_twice_is_reported() {
    let mut guard = ReleaseGuard::new();
    assert!(guard.is_leaked());
    assert_eq!(guard.destroy(), ReleaseOutcome::Released);
    assert!(!guard.is_leaked());
    assert_eq!(guard.destroy(), ReleaseOutcome::AlreadyReleased);
    assert!(guard.is_destroyed());
}
