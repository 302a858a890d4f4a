use glutin_x11_sym::{Display, Error, Library, LoadError, Teardown, XError};

fn bad_drawable() -> XError {
    XError {
        description: String::from("BadDrawable"),
        error_code: 9,
        request_code: 15,
        minor_code: 0,
    }
}

fn bad_window() -> XError {
    XError {
        description: String::from("BadWindow"),
        error_code: 3,
        request_code: 2,
        minor_code: 1,
    }
}

fn missing_core() -> LoadError {
    LoadError {
        library: Library::Xlib,
        detail: String::from("libX11.so.6: cannot open shared object file"),
    }
}

#[test]
fn opened_connection_owns_its_handle() {
    let display = Display::from_opened(0x7f00).unwrap();
    assert_eq!(display.display, 0x7f00);
    assert_eq!(display.raw_handle(), 0x7f00);
    assert_eq!(display.latest_error, None);
    assert!(display.owns_handle());
    assert_eq!(display.teardown(), Teardown::Close(0x7f00));
}

#[test]
fn null_handle_is_a_failure_to_open() {
    assert_eq!(Display::from_opened(0).unwrap_err(), Error::XOpenDisplayFailed);
}

#[test]
fn new_opens_through_a_loaded_library() {
    let library: Result<u32, LoadError> = Ok(11);
    let mut seen = 0;
    let display = Display::new(&library, |handle| {
        seen = *handle;
        0x1000
    })
    .unwrap();
    assert_eq!(seen, 11);
    assert_eq!(display.raw_handle(), 0x1000);
    assert!(display.owns_handle());
    assert_eq!(display.latest_error, None);
}

#[test]
fn new_reports_null_as_failure_to_open() {
    let library: Result<u32, LoadError> = Ok(11);
    let outcome = Display::new(&library, |_| 0);
    assert_eq!(outcome.unwrap_err(), Error::XOpenDisplayFailed);
}

#[test]
fn new_passes_load_failure_on_without_opening() {
    let library: Result<u32, LoadError> = Err(missing_core());
    let mut opened = false;
    let outcome = Display::new(&library, |_| {
        opened = true;
        0x1000
    });
    assert_eq!(outcome.unwrap_err(), Error::LibraryOpenError(missing_core()));
    assert!(!opened);
}

#[test]
fn foreign_connection_does_not_own_its_handle() {
    let display = Display::foreign(0x2000);
    assert_eq!(display.raw_handle(), 0x2000);
    assert!(!display.owns_handle());
    assert_eq!(display.latest_error, None);
    assert_eq!(display.teardown(), Teardown::Keep);
}

#[test]
fn foreign_null_handle_is_wrapped_as_it_is() {
    let display = Display::foreign(0);
    assert_eq!(display.raw_handle(), 0);
    assert_eq!(display.teardown(), Teardown::Keep);
}

#[test]
fn check_errors_on_empty_slot_succeeds() {
    let mut display = Display::from_opened(0x1000).unwrap();
    assert_eq!(display.check_errors(), Ok(()));
}

#[test]
fn check_errors_returns_and_clears_pending_error() {
    let mut display = Display::from_opened(0x1000).unwrap();
    display.record_error(bad_drawable());
    assert_eq!(display.latest_error, Some(Error::XError(bad_drawable())));
    assert_eq!(display.check_errors(), Err(Error::XError(bad_drawable())));
    assert_eq!(display.latest_error, None);
}

#[test]
fn second_check_in_a_row_succeeds() {
    let mut display = Display::from_opened(0x1000).unwrap();
    display.record_error(bad_drawable());
    assert!(display.check_errors().is_err());
    assert_eq!(display.check_errors(), Ok(()));
}

#[test]
fn later_error_replaces_earlier_one() {
    let mut display = Display::from_opened(0x1000).unwrap();
    display.record_error(bad_drawable());
    display.record_error(bad_window());
    assert_eq!(display.check_errors(), Err(Error::XError(bad_window())));
    assert_eq!(display.check_errors(), Ok(()));
}

#[test]
fn ignored_error_is_not_reported() {
    let mut display = Display::from_opened(0x1000).unwrap();
    display.record_error(bad_drawable());
    display.ignore_error();
    assert_eq!(display.latest_error, None);
    assert_eq!(display.check_errors(), Ok(()));
}

#[test]
fn ignore_error_on_empty_slot_changes_nothing() {
    let mut display = Display::foreign(0x2000);
    display.ignore_error();
    assert_eq!(display.check_errors(), Ok(()));
    assert_eq!(display.raw_handle(), 0x2000);
    assert!(!display.owns_handle());
}

#[test]
fn slot_operations_keep_handle_and_ownership() {
    let mut display = Display::from_opened(0x1000).unwrap();
    display.record_error(bad_drawable());
    assert_eq!(display.teardown(), Teardown::Close(0x1000));
    let _ = display.check_errors();
    display.ignore_error();
    assert_eq!(display.raw_handle(), 0x1000);
    assert!(display.owns_handle());
    assert_eq!(display.teardown(), Teardown::Close(0x1000));
}

#[test]
fn errors_compare_by_content() {
    assert_eq!(Error::XError(bad_drawable()), Error::XError(bad_drawable()));
    assert_ne!(Error::XError(bad_drawable()), Error::XError(bad_window()));
    assert_ne!(Error::XOpenDisplayFailed, Error::XError(bad_window()));
    assert_ne!(Error::LibraryOpenError(missing_core()), Error::XOpenDisplayFailed);
    let mut other = missing_core();
    other.library = Library::Glx;
    assert_ne!(Error::LibraryOpenError(missing_core()), Error::LibraryOpenError(other));
    let mut reworded = bad_drawable();
    reworded.description = String::from("BadPixmap");
    assert_ne!(bad_drawable(), reworded);
    let mut recoded = bad_drawable();
    recoded.minor_code = 4;
    assert_ne!(bad_drawable(), recoded);
}

#[test]
fn errors_clone_to_equal_values() {
    let error = Error::XError(bad_drawable());
    assert_eq!(error.clone(), error);
    let failure = Error::LibraryOpenError(missing_core());
    assert_eq!(failure.clone(), failure);
    assert_eq!(Error::XOpenDisplayFailed.clone(), Error::XOpenDisplayFailed);
}
