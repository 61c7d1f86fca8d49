use geometrydash::{
    AddressUtils, CCApplication, CCDirector, CCScheduler, FMODAudioEngine, FMODAudioEngineField,
    FieldValue, ForeignMemory, GameManager, GameMode, GameObject, GameObjectField, LevelSettings,
    PlayLayer, PlayLayerField, PlayerObject, PlayerObjectField,
};

fn region(base: usize, len: usize) -> ForeignMemory {
    ForeignMemory::new(base, vec![0u8; len]).unwrap()
}

#[test]
fn handle_from_zero_is_null() {
    assert!(PlayLayer::from_address(0).is_null());
    assert!(PlayerObject::from_address(0).is_null());
    assert!(GameManager::from_address(0).is_null());
    assert!(CCDirector::from_address(0).is_null());
    assert!(LevelSettings::from_address(0).is_null());
}

#[test]
fn handle_from_nonzero_is_not_null() {
    assert!(!PlayLayer::from_address(0x1234).is_null());
    assert!(!GameObject::from_address(1).is_null());
    assert!(!CCApplication::from_address(usize::MAX).is_null());
    assert!(!FMODAudioEngine::from_address(0x10).is_null());
    assert_eq!(CCScheduler::from_address(0x99).ptr(), 0x99);
}

#[test]
fn to_option_on_null_is_none() {
    assert_eq!(PlayLayer::from_address(0).to_option(), None);
    assert_eq!(GameManager::from_address(0).to_option(), None);
}

#[test]
fn to_option_on_live_handle_keeps_address() {
    let h = PlayerObject::from_address(0xABCD).to_option().unwrap();
    assert_eq!(h.ptr(), 0xABCD);
    let d = CCDirector::from_address(0x42).to_option().unwrap();
    assert_eq!(d.ptr(), 0x42);
}

#[test]
fn scheduler_lies_inside_director() {
    let d = CCDirector::from_address(0x5000);
    assert_eq!(d.scheduler().ptr(), 0x5048);
}

fn player_at(base: usize) -> (PlayerObject, ForeignMemory) {
    (PlayerObject::from_address(base), region(base, 0x700))
}

#[test]
fn no_mode_flag_means_cube() {
    let (p, m) = player_at(0x1000);
    assert_eq!(p.game_mode(&m), GameMode::Cube);
}

#[test]
fn first_mode_flag_wins() {
    let (p, mut m) = player_at(0x1000);
    m.write_bool(0x1000 + 0x63B, true);
    assert_eq!(p.game_mode(&m), GameMode::Wave);
    m.write_bool(0x1000 + 0x639, true);
    assert_eq!(p.game_mode(&m), GameMode::Ufo);
    m.write_bool(0x1000 + 0x63D, true);
    assert_eq!(p.game_mode(&m), GameMode::Ufo);
}

#[test]
fn set_game_mode_reads_back() {
    let modes = [
        GameMode::Cube,
        GameMode::Ship,
        GameMode::Ufo,
        GameMode::Ball,
        GameMode::Wave,
        GameMode::Robot,
        GameMode::Spider,
    ];
    for mode in modes {
        let (p, mut m) = player_at(0x2000);
        m.write_bytes(0x2000 + 0x638, &[1, 1, 1, 1, 1, 1]);
        p.set_game_mode(&mut m, mode);
        assert_eq!(p.game_mode(&m), mode);
    }
}

#[test]
fn set_game_mode_sets_exactly_one_flag() {
    let (p, mut m) = player_at(0x2000);
    m.write_bytes(0x2000 + 0x638, &[1, 1, 1, 1, 1, 1, 7]);
    p.set_game_mode(&mut m, GameMode::Robot);
    assert_eq!(m.read_bytes(0x2000 + 0x638, 7), vec![0, 0, 0, 0, 1, 0, 7]);
    p.set_game_mode(&mut m, GameMode::Cube);
    assert_eq!(m.read_bytes(0x2000 + 0x638, 7), vec![0, 0, 0, 0, 0, 0, 7]);
}

#[test]
fn player_position_fields() {
    let (p, mut m) = player_at(0x3000);
    p.set(&mut m, PlayerObjectField::X, FieldValue::F32(12.5f32.to_bits()));
    p.set(&mut m, PlayerObjectField::Y, FieldValue::F32((-4.0f32).to_bits()));
    assert_eq!(p.get(&m, PlayerObjectField::X), FieldValue::F32(12.5f32.to_bits()));
    assert_eq!(p.get(&m, PlayerObjectField::Y), FieldValue::F32((-4.0f32).to_bits()));
    assert_eq!(m.read_u32(0x3000 + 0x67C), 12.5f32.to_bits());
    assert_eq!(PlayerObjectField::YAccel.field().offset, 0x628);
}

fn layer_with_player(x: f32, dead: bool) -> (PlayLayer, ForeignMemory) {
    let base = 0x10000;
    let player = base + 0x800;
    let mut m = region(base, 0x1000);
    let layer = PlayLayer::from_address(base);
    layer.set(&mut m, PlayLayerField::IsDeadRaw, FieldValue::Bool(dead));
    layer.set_player1(&mut m, PlayerObject::from_address(player));
    PlayerObject::from_address(player).set(&mut m, PlayerObjectField::X, FieldValue::F32(x.to_bits()));
    (layer, m)
}

#[test]
fn is_dead_needs_the_flag() {
    let (layer, m) = layer_with_player(30.0, false);
    assert!(!layer.is_dead(&m));
}

#[test]
fn is_dead_with_flag_and_moved_player() {
    let (layer, m) = layer_with_player(30.0, true);
    assert!(layer.is_dead(&m));
}

#[test]
fn is_dead_ignores_player_at_zero() {
    let (layer, m) = layer_with_player(0.0, true);
    assert!(!layer.is_dead(&m));
    let (layer, m) = layer_with_player(-0.0, true);
    assert!(!layer.is_dead(&m));
    let (layer, m) = layer_with_player(f32::NAN, true);
    assert!(layer.is_dead(&m));
}

#[test]
fn is_dead_does_not_follow_player_when_alive() {
    let base = 0x10000;
    let mut m = region(base, 0x400);
    let layer = PlayLayer::from_address(base);
    layer.set_player1(&mut m, PlayerObject::from_address(0xFFFF_0000));
    assert!(!layer.is_dead(&m));
}

#[test]
fn players_and_settings_are_followed() {
    let base = 0x20000;
    let mut m = region(base, 0x400);
    let layer = PlayLayer::from_address(base);
    layer.set_player1(&mut m, PlayerObject::from_address(0x1111));
    assert_eq!(layer.player1(&m).ptr(), 0x1111);
    let mut m2 = region(base, 0x400);
    layer.set_player2(&mut m2, PlayerObject::from_address(0x2222));
    assert_eq!(layer.player2(&m2).ptr(), 0x2222);
    m2.write_ptr(base + 0x22C, base + 0x300);
    let settings = layer.level_settings(&m2);
    assert_eq!(settings.ptr(), base + 0x300);
    assert!(!settings.is_2player(&m2));
    m2.write_bool(base + 0x300 + 0xFA, true);
    assert!(settings.is_2player(&m2));
}

#[test]
fn game_manager_play_layer_pointer() {
    let base = 0x30000;
    let mut m = region(base, 0x400);
    let gm = GameManager::from_address(base);
    assert!(gm.play_layer(&m).is_null());
    m.write_ptr(base + 0x164, 0x4444);
    assert_eq!(gm.play_layer(&m).ptr(), 0x4444);
}

#[test]
fn game_object_and_audio_fields() {
    let base = 0x40000;
    let mut m = region(base, 0x400);
    let obj = GameObject::from_address(base);
    obj.set(&mut m, GameObjectField::HasBeenActivatedP2, FieldValue::Bool(true));
    assert_eq!(m.read_u8(base + 0x2CB), 1);
    assert_eq!(obj.get(&m, GameObjectField::HasBeenActivated), FieldValue::Bool(false));
    let audio = FMODAudioEngine::from_address(base);
    audio.set(&mut m, FMODAudioEngineField::CurrentSoundChannel, FieldValue::Ptr(0x5555));
    assert_eq!(audio.get(&m, FMODAudioEngineField::CurrentSoundChannel), FieldValue::Ptr(0x5555));
    assert_eq!(m.read_ptr(base + 0x130), 0x5555);
}

#[test]
fn handles_convert_to_their_address() {
    let p: usize = PlayLayer::from_address(0x1234).into();
    assert_eq!(p, 0x1234);
    assert_eq!(usize::from(CCScheduler::from_address(7)), 7);
    assert_eq!(usize::from(GameManager::from_address(0)), 0);
}
