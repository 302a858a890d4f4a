//! The failures that the connection bookkeeping reports.

use vstd::prelude::*;
use vstd::std_specs::cmp::PartialEqSpecImpl;
use crate::library::Library;

verus! {

/// A library could not be found or opened at run time.
#[derive(Debug)]
pub struct LoadError {
    /// The library that was asked for.
    pub library: Library,
    /// What the loader of the operating system said.
    pub detail: String,
}

/// A [`LoadError`] as a mathematical value.
pub struct LoadErrorView {
    pub library: Library,
    pub detail: Seq<char>,
}

impl View for LoadError {
    type V = LoadErrorView;

    open spec fn view(&self) -> LoadErrorView {
        LoadErrorView { library: self.library, detail: self.detail@ }
    }
}

impl Clone for LoadError {
    fn clone(&self) -> (r: Self)
        ensures
            r == *self,
    {
        LoadError { library: self.library, detail: self.detail.clone() }
    }
}

impl PartialEq for LoadError {
    fn eq(&self, other: &Self) -> (r: bool) {
        self.library == other.library && self.detail == other.detail
    }
}

impl PartialEqSpecImpl for LoadError {
    open spec fn obeys_eq_spec() -> bool {
        true
    }

    open spec fn eq_spec(&self, other: &Self) -> bool {
        self@ == other@
    }
}

/// An error that the display server raised for an earlier request.
#[derive(Debug)]
pub struct XError {
    /// The text that the native library gives for the error code.
    pub description: String,
    pub error_code: u8,
    pub request_code: u8,
    pub minor_code: u8,
}

/// An [`XError`] as a mathematical value.
pub struct XErrorView {
    pub description: Seq<char>,
    pub error_code: u8,
    pub request_code: u8,
    pub minor_code: u8,
}

impl View for XError {
    type V = XErrorView;

    open spec fn view(&self) -> XErrorView {
        XErrorView {
            description: self.description@,
            error_code: self.error_code,
            request_code: self.request_code,
            minor_code: self.minor_code,
        }
    }
}

impl Clone for XError {
    fn clone(&self) -> (r: Self)
        ensures
            r == *self,
    {
        XError {
            description: self.description.clone(),
            error_code: self.error_code,
            request_code: self.request_code,
            minor_code: self.minor_code,
        }
    }
}

impl PartialEq for XError {
    fn eq(&self, other: &Self) -> (r: bool) {
        self.description == other.description && self.error_code == other.error_code
            && self.request_code == other.request_code && self.minor_code == other.minor_code
    }
}

impl PartialEqSpecImpl for XError {
    open spec fn obeys_eq_spec() -> bool {
        true
    }

    open spec fn eq_spec(&self, other: &Self) -> bool {
        self@ == other@
    }
}

/// Everything that can go wrong with the connection.
#[derive(Debug)]
pub enum Error {
    /// The core library is not available, so no connection can be opened.
    LibraryOpenError(LoadError),
    /// The display server did not accept the connection.
    XOpenDisplayFailed,
    /// The display server raised an error for an earlier request.
    XError(XError),
}

/// An [`Error`] as a mathematical value.
pub enum ErrorView {
    LibraryOpenError(LoadErrorView),
    XOpenDisplayFailed,
    XError(XErrorView),
}

impl View for Error {
    type V = ErrorView;

    open spec fn view(&self) -> ErrorView {
        match self {
            Error::LibraryOpenError(e) => ErrorView::LibraryOpenError(e@),
            Error::XOpenDisplayFailed => ErrorView::XOpenDisplayFailed,
            Error::XError(e) => ErrorView::XError(e@),
        }
    }
}

impl Clone for Error {
    fn clone(&self) -> (r: Self)
        ensures
            r == *self,
    {
        match self {
            Error::LibraryOpenError(e) => Error::LibraryOpenError(e.clone()),
            Error::XOpenDisplayFailed => Error::XOpenDisplayFailed,
            Error::XError(e) => Error::XError(e.clone()),
        }
    }
}

impl PartialEq for Error {
    fn eq(&self, other: &Self) -> (r: bool) {
        match (self, other) {
            (Error::LibraryOpenError(a), Error::LibraryOpenError(b)) => a == b,
            (Error::XOpenDisplayFailed, Error::XOpenDisplayFailed) => true,
            (Error::XError(a), Error::XError(b)) => a == b,
            _ => false,
        }
    }
}

impl PartialEqSpecImpl for Error {
    open spec fn obeys_eq_spec() -> bool {
        true
    }

    open spec fn eq_spec(&self, other: &Self) -> bool {
        self@ == other@
    }
}

} // verus!
