use geometrydash::{
    CCApplication, CCDirector, CCScheduler, CallingConvention, FMODAudioEngine, ForeignFn,
    GameManager, Location, PatchAction, PatchPhase, PatchSession, PlayLayer, Receiver,
    ResolveError,
};

#[test]
fn absolute_location_is_itself() {
    assert_eq!(Location::Absolute(0xDEAD_BEEF).resolve(0x40_0000, 0, 0), Ok(0xDEAD_BEEF));
}

#[test]
fn base_offset_is_added_to_base() {
    assert_eq!(Location::BaseOffset(0x1234).resolve(0x40_0000, 0, 0), Ok(0x40_1234));
}

#[test]
fn export_needs_module_then_symbol() {
    let loc = Location::Export { module: "libcocos2d.dll", symbol: "?update@CCScheduler@cocos2d@@UAEXM@Z" };
    assert!(loc.is_export());
    assert_eq!(loc.resolve(0x40_0000, 0, 0x5555), Err(ResolveError::ModuleNotLoaded));
    assert_eq!(loc.resolve(0x40_0000, 0x1000_0000, 0), Err(ResolveError::SymbolNotFound));
    assert_eq!(loc.resolve(0x40_0000, 0x1000_0000, 0x1000_4321), Ok(0x1000_4321));
}

#[test]
fn fastcall_method_gets_this_and_placeholder() {
    let f = GameManager::game_variable_fn();
    let call = f.plan(0x40_0000, 0, 0, 0xABC0).unwrap();
    assert_eq!(call.target, 0x40_0000 + 0xC9D30);
    assert_eq!(call.convention, CallingConvention::Fastcall);
    assert_eq!(call.leading, vec![0xABC0, 0]);
}

#[test]
fn free_function_gets_no_receiver() {
    let f = GameManager::shared_fn();
    assert_eq!(f.convention, CallingConvention::Stdcall);
    let call = f.plan(0x40_0000, 0, 0, 0xABC0).unwrap();
    assert_eq!(call.target, 0x4C_4A50);
    assert!(call.leading.is_empty());
    assert_eq!(FMODAudioEngine::shared_fn().location, Location::BaseOffset(0x239f0));
    assert_eq!(PlayLayer::create_fn().receiver, Receiver::Free);
}

#[test]
fn play_layer_methods_pass_this_only() {
    let call = PlayLayer::reset_level_fn().plan(0x40_0000, 0, 0, 0x7000).unwrap();
    assert_eq!(call.target, 0x40_0000 + 0x20BF00);
    assert_eq!(call.leading, vec![0x7000]);
}

#[test]
fn cocos_functions_are_exports() {
    let f = CCDirector::animation_interval_fn();
    assert_eq!(f.convention, CallingConvention::Thiscall);
    assert_eq!(
        f.location,
        Location::Export {
            module: "libcocos2d.dll",
            symbol: "?getAnimationInterval@CCDirector@cocos2d@@QAENXZ"
        }
    );
    assert_eq!(f.plan(0, 0, 0x99, 0x10).unwrap_err(), ResolveError::ModuleNotLoaded);
    let call = CCScheduler::timescale_fn().plan(0, 0x1000, 0x2000, 0x10).unwrap();
    assert_eq!(call.target, 0x2000);
    assert_eq!(call.leading, vec![0x10]);
    let g: ForeignFn = CCApplication::set_animation_interval_fn();
    assert_eq!(g.receiver, Receiver::ThisAndPlaceholder);
    assert_eq!(CCApplication::shared_fn().convention, CallingConvention::Cdecl);
}

#[test]
fn patch_puts_back_former_protection() {
    let (mut s, a) = PatchSession::start(0x5000, 6);
    assert_eq!(a, PatchAction::Protect { address: 0x5000, len: 6, flags: 0x40 });
    assert_eq!(s.on_protected(Ok(0x20)), PatchAction::Write { address: 0x5000 });
    assert_eq!(s.on_written(Ok(())), PatchAction::Protect { address: 0x5000, len: 6, flags: 0x20 });
    assert_eq!(s.on_protected(Ok(0x40)), PatchAction::Finish(Ok(())));
    assert_eq!(s.phase, PatchPhase::Done);
}

#[test]
fn failed_write_still_restores_protection() {
    let (mut s, _) = PatchSession::start(0x5000, 6);
    s.on_protected(Ok(0x02));
    assert_eq!(s.on_written(Err(-5)), PatchAction::Protect { address: 0x5000, len: 6, flags: 0x02 });
    assert_eq!(s.on_protected(Ok(0x40)), PatchAction::Finish(Err(-5)));
}

#[test]
fn refused_unprotect_writes_nothing() {
    let (mut s, _) = PatchSession::start(0x5000, 6);
    assert_eq!(s.on_protected(Err(-1)), PatchAction::Finish(Err(-1)));
    assert_eq!(s.phase, PatchPhase::Done);
}

#[test]
fn failed_restore_is_reported() {
    let (mut s, _) = PatchSession::start(0x5000, 6);
    s.on_protected(Ok(0x20));
    s.on_written(Ok(()));
    assert_eq!(s.on_protected(Err(-9)), PatchAction::Finish(Err(-9)));
}

#[test]
fn empty_patch_does_nothing() {
    let (s, a) = PatchSession::start(0x5000, 0);
    assert_eq!(a, PatchAction::Finish(Ok(())));
    assert_eq!(s.phase, PatchPhase::Done);
}
