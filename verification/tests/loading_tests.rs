use framecap::loading::{file_stem, library_backend, GraphicsApi, ModuleRegistry};

#[test]
fn modules_are_patched_at_most_once() {
    let mut reg = ModuleRegistry::new();
    // A failed load has no module to examine.
    assert!(!reg.should_process(0));
    assert!(reg.should_process(0x7FF0_0000));
    reg.record_patched(0x7FF0_0000);
    assert!(!reg.should_process(0x7FF0_0000));
    assert!(reg.should_process(0x7FF0_1000));
}

#[test]
fn patched_modules_are_never_really_freed() {
    let mut reg = ModuleRegistry::new();
    reg.record_patched(42);
    assert!(reg.swallow_free(42));
    assert!(!reg.swallow_free(43));
}

#[test]
fn file_stem_strips_the_last_extension() {
    assert_eq!(file_stem(&b"dxgi.dll".to_vec()), b"dxgi".to_vec());
    assert_eq!(file_stem(&b"archive.tar.gz".to_vec()), b"archive.tar".to_vec());
    assert_eq!(file_stem(&b"noext".to_vec()), b"noext".to_vec());
    assert_eq!(file_stem(&b".hidden".to_vec()), b".hidden".to_vec());
}

#[test]
fn graphics_runtimes_are_recognized_by_stem() {
    let r = library_backend(&b"C:\\Windows\\System32\\dxgi.dll".to_vec());
    assert!(r == Some(GraphicsApi::Dxgi));
    let r = library_backend(&b"vulkan-1.dll".to_vec());
    assert!(r == Some(GraphicsApi::Vulkan));
    assert!(library_backend(&b"d3d9.dll".to_vec()).is_none());
    assert!(library_backend(&b"C:\\elsewhere\\dxgitype.dll".to_vec()).is_none());
}
