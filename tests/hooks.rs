use geometrydash::{HookError, HookRecord, HookRegistry, HookState};

#[test]
fn create_installs_an_inactive_hook() {
    let mut r = HookRegistry::new();
    assert_eq!(r.check_create(0x1000), Ok(()));
    assert_eq!(r.record_create(0x1000, 0x9000, Ok(0x7000)), Ok(0x7000));
    assert_eq!(
        r.get(0x1000),
        Some(HookRecord { detour: 0x9000, trampoline: 0x7000, state: HookState::Installed })
    );
    assert_eq!(r.original(0x1000), Some(0x7000));
    assert_eq!(r.len(), 1);
}

#[test]
fn second_create_on_same_target_is_refused() {
    let mut r = HookRegistry::new();
    r.record_create(0x1000, 0x9000, Ok(0x7000)).unwrap();
    assert_eq!(r.check_create(0x1000), Err(HookError::AlreadyCreated));
    assert_eq!(r.record_create(0x1000, 0x9100, Ok(0x7100)), Err(HookError::AlreadyCreated));
    assert_eq!(r.original(0x1000), Some(0x7000));
    assert_eq!(r.len(), 1);
}

#[test]
fn refused_create_leaves_no_entry() {
    let mut r = HookRegistry::new();
    assert_eq!(r.record_create(0x1000, 0x9000, Err(9)), Err(HookError::Backend(9)));
    assert!(!r.contains(0x1000));
    assert_eq!(r.len(), 0);
}

#[test]
fn enable_then_disable_restores_installed_hooks() {
    let mut r = HookRegistry::new();
    r.record_create(0x1000, 0x9000, Ok(0x7000)).unwrap();
    r.record_create(0x2000, 0x9100, Ok(0x7100)).unwrap();
    let before = (r.get(0x1000), r.get(0x2000));
    assert_eq!(r.record_enable_all(Ok(())), Ok(()));
    assert_eq!(r.get(0x1000).unwrap().state, HookState::Active);
    assert_eq!(r.get(0x2000).unwrap().state, HookState::Active);
    assert_eq!(r.record_disable_all(Ok(())), Ok(()));
    assert_eq!((r.get(0x1000), r.get(0x2000)), before);
    assert_eq!(r.len(), 2);
}

#[test]
fn failed_enable_changes_nothing() {
    let mut r = HookRegistry::new();
    r.record_create(0x1000, 0x9000, Ok(0x7000)).unwrap();
    assert_eq!(r.record_enable_all(Err(4)), Err(HookError::Backend(4)));
    assert_eq!(r.get(0x1000).unwrap().state, HookState::Installed);
}

#[test]
fn hook_created_after_enable_stays_inactive() {
    let mut r = HookRegistry::new();
    r.record_create(0x1000, 0x9000, Ok(0x7000)).unwrap();
    r.record_enable_all(Ok(())).unwrap();
    r.record_create(0x2000, 0x9100, Ok(0x7100)).unwrap();
    assert_eq!(r.get(0x1000).unwrap().state, HookState::Active);
    assert_eq!(r.get(0x2000).unwrap().state, HookState::Installed);
}

#[test]
fn remove_of_unknown_target_fails() {
    let mut r = HookRegistry::new();
    assert_eq!(r.check_remove(0x1000), Err(HookError::NotCreated));
    assert_eq!(r.record_remove(0x1000, Ok(())), Err(HookError::NotCreated));
}

#[test]
fn remove_then_create_again() {
    let mut r = HookRegistry::new();
    r.record_create(0x1000, 0x9000, Ok(0x7000)).unwrap();
    r.record_create(0x2000, 0x9100, Ok(0x7100)).unwrap();
    assert_eq!(r.check_remove(0x1000), Ok(()));
    assert_eq!(r.record_remove(0x1000, Ok(())), Ok(()));
    assert!(!r.contains(0x1000));
    assert_eq!(r.original(0x1000), None);
    assert_eq!(r.original(0x2000), Some(0x7100));
    assert_eq!(r.record_create(0x1000, 0x9200, Ok(0x7200)), Ok(0x7200));
    assert_eq!(r.original(0x1000), Some(0x7200));
}

#[test]
fn refused_remove_keeps_hook() {
    let mut r = HookRegistry::new();
    r.record_create(0x1000, 0x9000, Ok(0x7000)).unwrap();
    assert_eq!(r.record_remove(0x1000, Err(3)), Err(HookError::Backend(3)));
    assert!(r.contains(0x1000));
}
