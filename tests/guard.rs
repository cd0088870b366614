use winsafe::guard::{ComPtr, HkeyGuard};
use winsafe::handle::{Hkey, HKEY_CLASSES_ROOT, HKEY_PERFORMANCE_NLSTEXT};
use winsafe::os::{Call, Os};

#[test]
fn null_key_guard_closes_nothing() {
    let mut os = Os::new();
    let g = HkeyGuard::new(Hkey { raw: 0 });
    g.release(&mut os);
    assert!(os.calls().is_empty());
}

#[test]
fn registry_predefined_skip() {
    let mut os = Os::new();
    let g = HkeyGuard::new(Hkey::current_user());
    assert_eq!(g.hkey(), Hkey::current_user());
    g.release(&mut os);
    assert!(os.calls().is_empty());

    let fresh = Hkey { raw: 0x2345 };
    let g = HkeyGuard::new(fresh);
    assert!(os.calls().is_empty());
    g.release(&mut os);
    assert_eq!(os.calls(), &vec![Call::RegCloseKey { hkey: 0x2345 }]);
}

#[test]
fn predefined_range_edges_are_skipped() {
    let mut os = Os::new();
    HkeyGuard::new(Hkey { raw: HKEY_CLASSES_ROOT }).release(&mut os);
    HkeyGuard::new(Hkey { raw: HKEY_PERFORMANCE_NLSTEXT }).release(&mut os);
    assert!(os.calls().is_empty());
    HkeyGuard::new(Hkey { raw: HKEY_CLASSES_ROOT - 1 }).release(&mut os);
    HkeyGuard::new(Hkey { raw: HKEY_PERFORMANCE_NLSTEXT + 1 }).release(&mut os);
    assert_eq!(
        os.calls(),
        &vec![
            Call::RegCloseKey { hkey: HKEY_CLASSES_ROOT - 1 },
            Call::RegCloseKey { hkey: HKEY_PERFORMANCE_NLSTEXT + 1 },
        ]
    );
}

#[test]
fn null_com_pointer_releases_nothing() {
    let mut os = Os::new();
    ComPtr::new(0).release(&mut os);
    assert!(os.calls().is_empty());
    ComPtr::new(0x77).release(&mut os);
    assert_eq!(os.calls(), &vec![Call::Release { obj: 0x77 }]);
}
