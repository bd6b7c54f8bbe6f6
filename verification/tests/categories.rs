use asset_gate::assets::{
    ImageAsset, ImageAssets, SfxAsset, SfxAssets, SoundtrackAsset, SoundtrackAssets, UiAssets,
};
use asset_gate::player::Player;
use asset_gate::store::BackingStore;

#[test]
fn image_category_keys_its_handle() {
    let images = ImageAssets::new(41);
    assert_eq!(images.handle(ImageAsset::Ducky), 41);
}

#[test]
fn sfx_category_keys_its_handles() {
    let sfxs = SfxAssets::new(1, 2, 3, 4, 5, 6);
    assert_eq!(sfxs.handle(SfxAsset::ButtonHover), 1);
    assert_eq!(sfxs.handle(SfxAsset::ButtonPress), 2);
    assert_eq!(sfxs.handle(SfxAsset::Step1), 3);
    assert_eq!(sfxs.handle(SfxAsset::Step2), 4);
    assert_eq!(sfxs.handle(SfxAsset::Step3), 5);
    assert_eq!(sfxs.handle(SfxAsset::Step4), 6);
}

#[test]
fn soundtrack_category_keys_its_handles() {
    let soundtracks = SoundtrackAssets::new(7, 8);
    assert_eq!(soundtracks.handle(SoundtrackAsset::Credits), 7);
    assert_eq!(soundtracks.handle(SoundtrackAsset::Gameplay), 8);
}

#[test]
fn image_category_readiness_follows_the_store() {
    let images = ImageAssets::new(41);
    let mut store = BackingStore::new();
    assert!(!images.all_loaded(&store));
    store.insert(41);
    assert!(images.all_loaded(&store));
}

#[test]
fn sfx_category_readiness_needs_every_handle() {
    let sfxs = SfxAssets::new(1, 2, 3, 4, 5, 6);
    let mut store = BackingStore::new();
    for h in 1..=5u64 {
        store.insert(h);
        assert!(!sfxs.all_loaded(&store));
    }
    store.insert(6);
    assert!(sfxs.all_loaded(&store));
}

#[test]
fn soundtrack_category_readiness_needs_both_handles() {
    let soundtracks = SoundtrackAssets::new(7, 8);
    let mut store = BackingStore::new();
    store.insert(7);
    assert!(!soundtracks.all_loaded(&store));
    store.insert(8);
    assert!(soundtracks.all_loaded(&store));
}

#[test]
fn ui_category_readiness_follows_the_material_store() {
    let ui = UiAssets::new(9);
    assert_eq!(ui.health_bar, 9);
    let mut store = BackingStore::new();
    assert!(!ui.all_loaded(&store));
    store.insert(9);
    assert!(ui.all_loaded(&store));
}

#[test]
fn player_display_names() {
    assert_eq!(Player::Player1.id(), "Player 1");
    assert_eq!(Player::Player2.id(), "Player 2");
}
