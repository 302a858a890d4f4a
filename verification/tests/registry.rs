use glutin_x11_sym::{ExtensionHandle, Library, LoadError, Registry};

fn failure(library: Library) -> LoadError {
    LoadError { library, detail: String::from("opening library failed (no such file)") }
}

#[test]
fn new_handle_is_unresolved() {
    let handle: ExtensionHandle<u32> = ExtensionHandle::new();
    assert_eq!(handle.get(), None);
}

#[test]
fn first_lookup_loads_once_and_later_lookups_agree() {
    let mut handle: ExtensionHandle<u32> = ExtensionHandle::new();
    let mut attempts = 0;
    let first = handle
        .get_or_load(|| {
            attempts += 1;
            Ok(41)
        })
        .clone();
    let second = handle
        .get_or_load(|| {
            attempts += 1;
            Ok(42)
        })
        .clone();
    let third = handle
        .get_or_load(|| {
            attempts += 1;
            Err(failure(Library::Xft))
        })
        .clone();
    assert_eq!(attempts, 1);
    assert_eq!(first, Ok(41));
    assert_eq!(second, Ok(41));
    assert_eq!(third, Ok(41));
    assert_eq!(handle.get(), Some(&Ok(41)));
}

#[test]
fn load_failure_is_cached_and_never_retried() {
    let mut handle: ExtensionHandle<u32> = ExtensionHandle::new();
    let mut attempts = 0;
    let first = handle
        .get_or_load(|| {
            attempts += 1;
            Err(failure(Library::Xss))
        })
        .clone();
    let second = handle
        .get_or_load(|| {
            attempts += 1;
            Ok(5)
        })
        .clone();
    assert_eq!(attempts, 1);
    assert_eq!(first, Err(failure(Library::Xss)));
    assert_eq!(second, Err(failure(Library::Xss)));
}

#[test]
fn resolve_keeps_the_first_outcome() {
    let mut handle: ExtensionHandle<u32> = ExtensionHandle::new();
    assert_eq!(handle.resolve(Ok(1)), &Ok(1));
    assert_eq!(handle.resolve(Ok(2)), &Ok(1));
    assert_eq!(handle.resolve(Err(failure(Library::Xt))), &Ok(1));
    assert_eq!(handle.get(), Some(&Ok(1)));
}

#[test]
fn new_registry_has_nothing_resolved() {
    let registry: Registry<u32> = Registry::new();
    for library in all_libraries() {
        assert_eq!(registry.get(library), None);
    }
}

fn all_libraries() -> Vec<Library> {
    vec![
        Library::Xext,
        Library::Xss,
        Library::Xft,
        Library::Xt,
        Library::Xmu,
        Library::Xrender,
        Library::Xcursor,
        Library::Glx,
        Library::XInput,
        Library::XInput2,
        Library::Xrandr220,
        Library::Xrandr,
        Library::Xf86vmode,
        Library::XtestXf86vmode,
        Library::XrecordXf86vmode,
        Library::Xinerama,
        Library::Xlib,
        Library::XlibXcb,
    ]
}

#[test]
fn libraries_fail_independently() {
    let mut registry: Registry<u32> = Registry::new();
    assert_eq!(
        registry.get_or_load(Library::Xcursor, || Err(failure(Library::Xcursor))),
        &Err(failure(Library::Xcursor))
    );
    assert_eq!(registry.get_or_load(Library::Xlib, || Ok(7)), &Ok(7));
    assert_eq!(registry.get(Library::Xcursor), Some(&Err(failure(Library::Xcursor))));
    assert_eq!(registry.get(Library::Xlib), Some(&Ok(7)));
    assert_eq!(registry.get(Library::Xrandr), None);
    assert_eq!(registry.get(Library::XlibXcb), None);
}

#[test]
fn every_library_has_its_own_handle() {
    let mut registry: Registry<usize> = Registry::new();
    for (n, library) in all_libraries().into_iter().enumerate() {
        assert_eq!(registry.get_or_load(library, || Ok(n)), &Ok(n));
    }
    for (n, library) in all_libraries().into_iter().enumerate() {
        assert_eq!(registry.get(library), Some(&Ok(n)));
        assert_eq!(library.index(), n);
    }
}

#[test]
fn registry_lookup_loads_once_per_library() {
    let mut registry: Registry<u32> = Registry::new();
    let mut attempts = 0;
    for _ in 0..5 {
        let outcome = registry
            .get_or_load(Library::Glx, || {
                attempts += 1;
                Ok(attempts)
            })
            .clone();
        assert_eq!(outcome, Ok(1));
    }
    assert_eq!(attempts, 1);
}

#[test]
fn registry_resolve_keeps_the_first_outcome() {
    let mut registry: Registry<u32> = Registry::new();
    assert_eq!(registry.resolve(Library::Xmu, Err(failure(Library::Xmu))), &Err(failure(Library::Xmu)));
    assert_eq!(registry.resolve(Library::Xmu, Ok(3)), &Err(failure(Library::Xmu)));
    assert_eq!(registry.resolve(Library::Xt, Ok(4)), &Ok(4));
    assert_eq!(registry.get(Library::Xmu), Some(&Err(failure(Library::Xmu))));
}

#[test]
fn library_names_and_positions() {
    let names = [
        "XEXT",
        "XSS",
        "XFT",
        "XT",
        "XMU",
        "XRENDER",
        "XCURSOR",
        "GLX",
        "XINPUT",
        "XINPUT2",
        "XRANDR_2_2_0",
        "XRANDR",
        "XF86VMODE",
        "XTEST_XF86VMODE",
        "XRECORD_XF86VMODE",
        "XINERAMA",
        "XLIB",
        "XLIB_XCB",
    ];
    let libraries = all_libraries();
    assert_eq!(libraries.len(), 18);
    for (n, library) in libraries.into_iter().enumerate() {
        assert_eq!(library.index(), n);
        assert_eq!(library.name(), names[n]);
    }
}
