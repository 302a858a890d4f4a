//! One connection to the display server, and the slot that holds the latest
//! error the server raised on it.
//!
//! The slot is either empty or holds one error. A new error replaces the one
//! that was there: nothing is queued.

use vstd::prelude::*;
use crate::error::{Error, LoadError, XError};

verus! {

/// What has to happen to the native connection once nobody refers to a
/// [`Display`] any more.
#[derive(Clone, Copy, Debug, PartialEq, Eq, Structural)]
pub enum Teardown {
    /// The connection belongs to someone else and stays open.
    Keep,
    /// The native connection with this handle is to be closed.
    Close(usize),
}

/// A connection to the display server.
#[derive(Debug)]
pub struct Display {
    /// The native handle of the connection, as an address. It is only handed
    /// on to native calls.
    pub display: usize,
    /// The latest error that nobody has taken yet.
    pub latest_error: Option<Error>,
    owned: bool,
}

/// A [`Display`] as a mathematical value.
pub struct DisplayView {
    /// The native handle of the connection.
    pub display: usize,
    /// The latest error that nobody has taken yet.
    pub latest_error: Option<Error>,
    /// Whether the native connection is closed together with this value.
    pub owned: bool,
}

impl DisplayView {
    /// What a check reports: the pending error as a failure, or success.
    pub open spec fn check(self) -> Result<(), Error> {
        match self.latest_error {
            Some(error) => Err(error),
            None => Ok(()),
        }
    }

    /// This connection with an empty error slot.
    pub open spec fn cleared(self) -> DisplayView {
        DisplayView { latest_error: None, ..self }
    }

    /// This connection after the server has raised `error` on it: the error
    /// takes the place of whatever was pending.
    pub open spec fn recorded(self, error: XError) -> DisplayView {
        DisplayView { latest_error: Some(Error::XError(error)), ..self }
    }

    /// What the last holder has to do when it lets go: close the native
    /// connection if this value owns it, else nothing.
    pub open spec fn teardown(self) -> Teardown {
        if self.owned {
            Teardown::Close(self.display)
        } else {
            Teardown::Keep
        }
    }
}

impl View for Display {
    type V = DisplayView;

    closed spec fn view(&self) -> DisplayView {
        DisplayView { display: self.display, latest_error: self.latest_error, owned: self.owned }
    }
}

impl Display {
    /// The outcome of opening a connection through `library`, where the
    /// native call returned `handle`.
    pub open spec fn established<H>(library: Result<H, LoadError>, handle: usize, display: Result<
        Display,
        Error,
    >) -> bool {
        match library {
            Err(e) => display == Err::<Display, Error>(Error::LibraryOpenError(e)),
            Ok(_) => Self::opened(handle, display),
        }
    }

    /// The outcome of a native call to open a connection that returned
    /// `handle`: a failure for the null handle, else an owning connection
    /// with an empty slot.
    pub open spec fn opened(handle: usize, display: Result<Display, Error>) -> bool {
        if handle == 0 {
            display == Err::<Display, Error>(Error::XOpenDisplayFailed)
        } else {
            &&& display matches Ok(d)
            &&& d@ == (DisplayView { display: handle, latest_error: None, owned: true })
        }
    }

    /// Opens a connection through the core library.
    ///
    /// Where the library failed to load, its failure is returned and `open`
    /// is not called. Otherwise `open` makes the native calls and returns the
    /// handle of the new connection, or null.
    pub fn new<H, F: FnOnce(&H) -> usize>(library: &Result<H, LoadError>, open: F) -> (display: Result<
        Display,
        Error,
    >)
        requires
            library matches Ok(h) ==> open.requires((&h,)),
        ensures
            exists|handle: usize|
                {
                    &&& library matches Ok(h) ==> open.ensures((&h,), handle)
                    &&& #[trigger] Self::established(*library, handle, display)
                },
    {
        match library {
            Err(e) => {
                let display = Err(Error::LibraryOpenError(e.clone()));
                assert(Self::established(*library, 0, display));
                display
            },
            Ok(h) => {
                let handle = open(h);
                let display = Self::from_opened(handle);
                assert(Self::established(*library, handle, display));
                display
            },
        }
    }

    /// Wraps the handle that a native call to open a connection returned.
    pub fn from_opened(handle: usize) -> (display: Result<Display, Error>)
        ensures
            Self::opened(handle, display),
    {
        if handle == 0 {
            Err(Error::XOpenDisplayFailed)
        } else {
            Ok(Display { display: handle, latest_error: None, owned: true })
        }
    }

    /// Wraps a connection that someone else opened and will close.
    pub fn foreign(handle: usize) -> (display: Display)
        ensures
            display@ == (DisplayView { display: handle, latest_error: None, owned: false }),
    {
        Display { display: handle, latest_error: None, owned: false }
    }

    /// The native handle, for native calls that this crate does not wrap.
    pub fn raw_handle(&self) -> (handle: usize)
        ensures
            handle == self@.display,
    {
        self.display
    }

    /// Whether this value is responsible for closing the native connection.
    pub fn owns_handle(&self) -> (owned: bool)
        ensures
            owned == self@.owned,
    {
        self.owned
    }

    /// Stores an error that the server raised, in place of whatever the slot
    /// held.
    pub fn record_error(&mut self, error: XError)
        ensures
            final(self)@ == old(self)@.recorded(error),
    {
        self.latest_error = Some(Error::XError(error));
    }

    /// Takes the pending error out of the slot and returns it as a failure;
    /// succeeds where the slot was empty. The slot is empty afterwards.
    pub fn check_errors(&mut self) -> (outcome: Result<(), Error>)
        ensures
            outcome == old(self)@.check(),
            final(self)@ == old(self)@.cleared(),
    {
        let error = self.latest_error.take();
        if let Some(error) = error {
            Err(error)
        } else {
            Ok(())
        }
    }

    /// Empties the slot without reporting what it held.
    pub fn ignore_error(&mut self)
        ensures
            final(self)@ == old(self)@.cleared(),
    {
        self.latest_error = None;
    }

    /// What the last holder of this connection has to do when it lets go:
    /// close the native connection if this value owns it, else nothing.
    pub fn teardown(&self) -> (action: Teardown)
        ensures
            action == self@.teardown(),
    {
        if self.owned {
            Teardown::Close(self.display)
        } else {
            Teardown::Keep
        }
    }
}

} // verus!
