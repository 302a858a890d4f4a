//! The connections of one process: the connection that the process opened
//! for itself, and every connection that is shared.
//!
//! A [`Context`] is an ordinary value. A program makes one and guards it as
//! it sees fit; nothing in here is global. Holders of a connection refer to
//! it by a [`SharedDisplay`], which names one of the connections that the
//! context keeps.

use vstd::prelude::*;
use crate::display::{Display, DisplayView, Teardown};
use crate::error::{Error, LoadError, XError, XErrorView};
use crate::library::Library;
use crate::registry::{resolved_in, Registry};
use crate::text::{error_text, lossy_text, text_bytes, ERROR_TEXT_CAPACITY};

verus! {

/// The value that the error callback hands back to the native library, which
/// ignores it.
pub const CALLBACK_RESULT: i32 = 0;

/// A count of holders after one more has joined. A count that has reached
/// the largest number stays there.
pub open spec fn joined(holders: u64) -> u64 {
    if holders < u64::MAX {
        (holders + 1) as u64
    } else {
        holders
    }
}

/// A count of holders after one has left. A count that has reached the
/// largest number stays there, so its connection is kept for good.
pub open spec fn left(holders: u64) -> u64 {
    if 0 < holders < u64::MAX {
        (holders - 1) as u64
    } else {
        holders
    }
}

/// One shared connection: the connection and the number of its holders.
pub struct Shared {
    pub display: DisplayView,
    pub holders: u64,
}

impl Shared {
    /// This connection with another count of holders.
    pub open spec fn held_by(self, holders: u64) -> Shared {
        Shared { holders, ..self }
    }

    /// This connection in another state, with the same holders.
    pub open spec fn holding(self, display: DisplayView) -> Shared {
        Shared { display, ..self }
    }
}

/// A [`Context`] as a mathematical value.
pub struct ContextView {
    /// The outcome of opening the process's own connection, once that was
    /// tried: the index of the connection, or the failure.
    pub singleton: Option<Result<int, Error>>,
    /// Every connection that was ever shared, in the order of arrival.
    pub connections: Seq<Shared>,
}

impl ContextView {
    /// What holds of every context: the process's own connection is one of
    /// the shared connections, is owned, has a handle other than null and is
    /// held by the context itself; and a server error is never the outcome
    /// of opening it.
    pub open spec fn wf(self) -> bool {
        match self.singleton {
            None => true,
            Some(Ok(i)) => {
                &&& 0 <= i < self.connections.len()
                &&& self.connections[i].holders >= 1
                &&& self.connections[i].display.owned
                &&& self.connections[i].display.display != 0
            },
            Some(Err(e)) => !(e is XError),
        }
    }

    /// Whether `display` is the handle of the process's own connection.
    pub open spec fn is_current(self, display: usize) -> bool {
        self.singleton matches Some(Ok(i)) && self.connections[i].display.display == display
    }

    /// The holders of connection `i` apart from the context itself.
    pub open spec fn outstanding(self, i: int) -> int {
        if self.singleton == Some(Ok::<int, Error>(i)) {
            self.connections[i].holders - 1
        } else {
            self.connections[i].holders as int
        }
    }

    /// Whether someone holds a reference to connection `i`.
    pub open spec fn holds(self, i: int) -> bool {
        0 <= i < self.connections.len() && self.outstanding(i) > 0
    }

    /// This context with connection `i` replaced.
    pub open spec fn with_connection(self, i: int, connection: Shared) -> Self {
        ContextView { connections: self.connections.update(i, connection), ..self }
    }

    /// This context after one more holder has joined connection `i`.
    pub open spec fn retained(self, i: int) -> Self {
        self.with_connection(i, self.connections[i].held_by(joined(self.connections[i].holders)))
    }

    /// This context after one holder of connection `i` has left.
    pub open spec fn released(self, i: int) -> Self {
        self.with_connection(i, self.connections[i].held_by(left(self.connections[i].holders)))
    }

    /// What the holder who leaves connection `i` has to do: close the native
    /// connection if nobody is left and the handle is owned, else nothing.
    pub open spec fn release_action(self, i: int) -> Teardown {
        if left(self.connections[i].holders) == 0 {
            self.connections[i].display.teardown()
        } else {
            Teardown::Keep
        }
    }

    /// This context with `display` as a new shared connection, held once.
    pub open spec fn registered(self, display: DisplayView) -> Self {
        ContextView { connections: self.connections.push(Shared { display, holders: 1 }), ..self }
    }

    /// This context after `display` has been adopted: its own connection
    /// gains a holder where the handle is its handle, else a wrapper that
    /// does not own the handle joins the shared connections.
    pub open spec fn adopted(self, display: usize) -> Self {
        if self.is_current(display) {
            self.retained(self.singleton.unwrap().unwrap())
        } else {
            self.registered(DisplayView { display, latest_error: None, owned: false })
        }
    }

    /// The connection that a reference to the adopted `display` names.
    pub open spec fn adopted_index(self, display: usize) -> int {
        if self.is_current(display) {
            self.singleton.unwrap().unwrap()
        } else {
            self.connections.len() as int
        }
    }

    /// This context after the error slot of connection `i` has been emptied.
    pub open spec fn cleared(self, i: int) -> Self {
        self.with_connection(i, self.connections[i].holding(self.connections[i].display.cleared()))
    }

    /// What a check of connection `i` reports: the pending error as a failure, or
    /// success.
    pub open spec fn check(self, i: int) -> Result<(), Error> {
        self.connections[i].display.check()
    }

    /// This context after the server has raised `error` on the connection
    /// with the handle `display`: the error replaces what the process's own
    /// connection had pending where the handle is its handle, and is dropped
    /// where it is not.
    pub open spec fn delivered(self, display: usize, error: XError) -> Self {
        if self.is_current(display) {
            let i = self.singleton.unwrap().unwrap();
            self.with_connection(i, self.connections[i].holding(self.connections[i].display.recorded(error)))
        } else {
            self
        }
    }

    /// This context once the outcome of opening the process's own connection
    /// is known: a connection joins the shared ones, held by the context and by
    /// the caller, and a failure is kept as it is.
    pub open spec fn settled(self, outcome: Result<Display, Error>) -> Self {
        match outcome {
            Ok(display) => ContextView {
                singleton: Some(Ok(self.connections.len() as int)),
                connections: self.connections.push(Shared { display: display@, holders: 2 }),
            },
            Err(e) => ContextView { singleton: Some(Err(e)), ..self },
        }
    }

    /// What the context has to do with its own connection when the process
    /// is done with it.
    pub open spec fn shutdown_action(self) -> Teardown {
        match self.singleton {
            Some(Ok(i)) => self.release_action(i),
            _ => Teardown::Keep,
        }
    }
}

/// A reference to a shared connection. It names a connection of the context
/// that issued it, and counts as one holder of it until it is released.
#[derive(Debug)]
pub struct SharedDisplay {
    index: usize,
}

impl SharedDisplay {
    /// The index of the connection that this reference names.
    pub closed spec fn index(&self) -> int {
        self.index as int
    }

    /// Whether two references name the same connection, and so the same
    /// error slot.
    pub fn same_connection(&self, other: &SharedDisplay) -> (same: bool)
        ensures
            same == (self.index() == other.index()),
    {
        self.index == other.index
    }
}

struct Entry {
    display: Display,
    holders: u64,
}

/// The connections of one process.
pub struct Context {
    singleton: Option<Result<usize, Error>>,
    entries: Vec<Entry>,
}

impl View for Context {
    type V = ContextView;

    closed spec fn view(&self) -> ContextView {
        ContextView {
            singleton: match self.singleton {
                None => None,
                Some(Ok(i)) => Some(Ok(i as int)),
                Some(Err(e)) => Some(Err(e)),
            },
            connections: Seq::new(
                self.entries.len() as nat,
                |i: int| Shared { display: self.entries[i].display@, holders: self.entries[i].holders },
            ),
        }
    }
}

impl Context {
    /// A context in which nothing has happened yet.
    pub fn new() -> (context: Self)
        ensures
            context@ == (ContextView { singleton: None, connections: Seq::empty() }),
            context@.wf(),
    {
        let context = Context { singleton: None, entries: Vec::new() };
        assert(context@.connections =~= Seq::empty());
        context
    }

    /// Whether `display` is the handle of the process's own connection, so
    /// that server errors raised on it find their way to a slot.
    pub fn is_current(&self, display: usize) -> (current: bool)
        requires
            self@.wf(),
        ensures
            current == self@.is_current(display),
    {
        match &self.singleton {
            Some(Ok(i)) => self.entries[*i].display.raw_handle() == display,
            _ => false,
        }
    }

    /// Whether `shared` names a connection that someone still holds.
    pub fn is_live(&self, shared: &SharedDisplay) -> (live: bool)
        ensures
            live == self@.holds(shared.index()),
    {
        if shared.index >= self.entries.len() {
            return false;
        }
        let holders = self.entries[shared.index].holders;
        match &self.singleton {
            Some(Ok(i)) if *i == shared.index => holders > 1,
            _ => holders > 0,
        }
    }

    /// Returns a reference to the process's own connection, and opens that
    /// connection if nobody has asked for it before.
    ///
    /// The first call looks the core library up in `registry`, which calls
    /// `load` if the library was not asked for yet. Where the library is
    /// there, `open` makes the native calls and returns the handle of the new
    /// connection, or null. The outcome, a connection or a failure, is kept
    /// for good: every later call returns it and calls neither `load` nor
    /// `open`, nor does it touch the registry.
    pub fn shared_display<H, L, O>(&mut self, registry: &mut Registry<H>, load: L, open: O) -> (outcome: Result<
        SharedDisplay,
        Error,
    >) where L: FnOnce() -> Result<H, LoadError>, O: FnOnce(&H) -> usize
        requires
            old(self)@.wf(),
            old(self)@.singleton is None && !old(registry)@.dom().contains(Library::Xlib) ==> load.requires(()),
            old(self)@.singleton is None ==> forall|h: H|
                (if old(registry)@.dom().contains(Library::Xlib) {
                    old(registry)@[Library::Xlib] == Ok::<H, LoadError>(h)
                } else {
                    load.ensures((), Ok(h))
                }) ==> #[trigger] open.requires((&h,)),
        ensures
            final(self)@.wf(),
            match old(self)@.singleton {
                Some(Ok(i)) => {
                    &&& final(self)@ == old(self)@.retained(i)
                    &&& final(registry)@ == old(registry)@
                    &&& outcome matches Ok(shared)
                    &&& shared.index() == i
                },
                Some(Err(e)) => {
                    &&& final(self)@ == old(self)@
                    &&& final(registry)@ == old(registry)@
                    &&& outcome matches Err(f)
                    &&& f == e
                },
                None => {
                    &&& resolved_in(old(registry)@, final(registry)@, Library::Xlib)
                    &&& !old(registry)@.dom().contains(Library::Xlib) ==> load.ensures(
                        (),
                        final(registry)@[Library::Xlib],
                    )
                    &&& exists|handle: usize, display: Result<Display, Error>|
                        {
                            &&& final(registry)@[Library::Xlib] matches Ok(h) ==> open.ensures((&h,), handle)
                            &&& #[trigger] Display::established(final(registry)@[Library::Xlib], handle, display)
                            &&& final(self)@ == old(self)@.settled(display)
                            &&& match outcome {
                                Ok(shared) => display is Ok && shared.index() == old(self)@.connections.len(),
                                Err(e) => display == Err::<Display, Error>(e),
                            }
                        }
                },
            },
    {
        match &self.singleton {
            Some(Ok(i)) => {
                let index = *i;
                let holders = self.entries[index].holders;
                if holders < u64::MAX {
                    self.entries[index].holders = holders + 1;
                }
                assert(self@.connections =~= old(self)@.retained(index as int).connections);
                return Ok(SharedDisplay { index });
            },
            Some(Err(e)) => {
                return Err(e.clone());
            },
            None => {},
        }
        let library = registry.get_or_load(Library::Xlib, load);
        let display = Display::new(library, open);
        match display {
            Ok(d) => {
                let index = self.entries.len();
                let ghost view = d@;
                self.entries.push(Entry { display: d, holders: 2 });
                self.singleton = Some(Ok(index));
                assert(self@.connections =~= old(self)@.connections.push(Shared { display: view, holders: 2 }));
                Ok(SharedDisplay { index })
            },
            Err(e) => {
                self.singleton = Some(Err(e.clone()));
                Err(e)
            },
        }
    }

    /// Puts a connection under shared ownership and returns the first
    /// reference to it.
    pub fn register(&mut self, display: Display) -> (shared: SharedDisplay)
        requires
            old(self)@.wf(),
        ensures
            final(self)@.wf(),
            final(self)@ == old(self)@.registered(display@),
            shared.index() == old(self)@.connections.len(),
            final(self)@.holds(shared.index()),
    {
        let index = self.entries.len();
        let ghost view = display@;
        self.entries.push(Entry { display, holders: 1 });
        assert(self@.connections =~= old(self)@.connections.push(Shared { display: view, holders: 1 }));
        SharedDisplay { index }
    }

    /// Returns one more reference to the connection that `shared` names.
    pub fn share(&mut self, shared: &SharedDisplay) -> (another: SharedDisplay)
        requires
            old(self)@.wf(),
            old(self)@.holds(shared.index()),
        ensures
            final(self)@.wf(),
            final(self)@ == old(self)@.retained(shared.index()),
            another.index() == shared.index(),
            final(self)@.holds(another.index()),
    {
        let index = shared.index;
        let holders = self.entries[index].holders;
        if holders < u64::MAX {
            self.entries[index].holders = holders + 1;
        }
        assert(self@.connections =~= old(self)@.retained(index as int).connections);
        SharedDisplay { index }
    }

    /// Gives a reference up, and says what the caller has to do with the
    /// native connection: close it if this was the last reference to a
    /// connection that owns its handle, else nothing.
    pub fn release(&mut self, shared: SharedDisplay) -> (action: Teardown)
        requires
            old(self)@.wf(),
            old(self)@.holds(shared.index()),
        ensures
            final(self)@.wf(),
            final(self)@ == old(self)@.released(shared.index()),
            action == old(self)@.release_action(shared.index()),
    {
        let index = shared.index;
        let holders = self.entries[index].holders;
        if holders < u64::MAX {
            self.entries[index].holders = holders - 1;
        }
        assert(self@.connections =~= old(self)@.released(index as int).connections);
        if self.entries[index].holders == 0 {
            self.entries[index].display.teardown()
        } else {
            Teardown::Keep
        }
    }

    /// The connection that `shared` names.
    pub fn display(&self, shared: &SharedDisplay) -> (display: &Display)
        requires
            self@.holds(shared.index()),
        ensures
            display@ == self@.connections[shared.index()].display,
    {
        &self.entries[shared.index].display
    }

    /// Takes the pending error of the connection that `shared` names and
    /// returns it as a failure; succeeds where none was pending. Nothing is
    /// pending afterwards.
    pub fn check_errors(&mut self, shared: &SharedDisplay) -> (outcome: Result<(), Error>)
        requires
            old(self)@.wf(),
            old(self)@.holds(shared.index()),
        ensures
            final(self)@.wf(),
            outcome == old(self)@.check(shared.index()),
            final(self)@ == old(self)@.cleared(shared.index()),
    {
        let outcome = self.entries[shared.index].display.check_errors();
        assert(self@.connections =~= old(self)@.cleared(shared.index()).connections);
        outcome
    }

    /// Drops the pending error of the connection that `shared` names without
    /// reporting it.
    pub fn ignore_error(&mut self, shared: &SharedDisplay)
        requires
            old(self)@.wf(),
            old(self)@.holds(shared.index()),
        ensures
            final(self)@.wf(),
            final(self)@ == old(self)@.cleared(shared.index()),
    {
        self.entries[shared.index].display.ignore_error();
        assert(self@.connections =~= old(self)@.cleared(shared.index()).connections);
    }

    /// Stores an error that the server raised on the connection with the
    /// handle `display`, and says whether it found a slot.
    ///
    /// Only the process's own connection takes errors. There the error
    /// replaces the one that was pending. An error on any other handle
    /// belongs to no connection that this context knows of, and is dropped.
    pub fn deliver(&mut self, display: usize, error: XError) -> (attributed: bool)
        requires
            old(self)@.wf(),
        ensures
            final(self)@.wf(),
            attributed == old(self)@.is_current(display),
            final(self)@ == old(self)@.delivered(display, error),
    {
        let index = match &self.singleton {
            Some(Ok(i)) => *i,
            _ => {
                return false;
            },
        };
        if self.entries[index].display.raw_handle() != display {
            return false;
        }
        self.entries[index].display.record_error(error);
        assert(self@.connections =~= old(self)@.delivered(display, error).connections);
        true
    }

    /// Ends the context, and says what the caller has to do with the
    /// process's own connection: close it if no reference to it is left,
    /// else nothing.
    pub fn shutdown(self) -> (action: Teardown)
        requires
            self@.wf(),
        ensures
            action == self@.shutdown_action(),
    {
        match &self.singleton {
            Some(Ok(i)) => {
                if self.entries[*i].holders == 1 {
                    self.entries[*i].display.teardown()
                } else {
                    Teardown::Keep
                }
            },
            _ => Teardown::Keep,
        }
    }
}

impl Display {
    /// Wraps a connection that was opened elsewhere, by its native handle.
    ///
    /// Where the handle is that of the process's own connection, the result
    /// is one more reference to that connection, so that both share one
    /// error slot. Any other handle gets a wrapper of its own, which does
    /// not own the handle and to which no server error will ever be
    /// attributed: ask [`Context::is_current`] first to warn of that.
    pub fn from_raw(context: &mut Context, display: usize) -> (shared: SharedDisplay)
        requires
            old(context)@.wf(),
        ensures
            final(context)@.wf(),
            final(context)@ == old(context)@.adopted(display),
            shared.index() == old(context)@.adopted_index(display),
            final(context)@.holds(shared.index()),
    {
        if let Some(Ok(i)) = &context.singleton {
            let index = *i;
            if context.entries[index].display.raw_handle() == display {
                let holders = context.entries[index].holders;
                if holders < u64::MAX {
                    context.entries[index].holders = holders + 1;
                }
                assert(context@.connections =~= old(context)@.retained(index as int).connections);
                return SharedDisplay { index };
            }
        }
        context.register(Display::foreign(display))
    }
}

/// The error of the server that a call of the native error handler reports,
/// where `text` is the buffer that the native library filled with the
/// description of `error_code`.
pub open spec fn reported(error: XError, error_code: u8, request_code: u8, minor_code: u8, text: Seq<u8>) -> bool {
    error@ == (XErrorView {
        description: lossy_text(text_bytes(text)),
        error_code,
        request_code,
        minor_code,
    })
}

/// Whether an error that the server raises on the handle `display` finds a
/// slot: the core library is loaded, so that the error can be described, and
/// the handle is that of the process's own connection.
pub open spec fn attributable<H>(
    libraries: Map<Library, Result<H, LoadError>>,
    context: ContextView,
    display: usize,
) -> bool {
    &&& libraries.dom().contains(Library::Xlib)
    &&& libraries[Library::Xlib] is Ok
    &&& context.is_current(display)
}

/// What the native error handler does when the server raises an error.
///
/// `display` is the handle that the native library names, and the three
/// codes come from its error record as they are. Where the core library is
/// loaded and the handle is that of the process's own connection,
/// `fetch_text` is called with the library to make the native call that
/// describes `error_code`; it returns the buffer that the call has filled.
/// The error then takes the place of whatever was pending on that
/// connection. In every other case nothing is called and nothing changes:
/// the error belongs to no connection that this context knows of.
///
/// The result means nothing to the native library.
pub fn x_error_callback<H, F: FnOnce(&H) -> [u8; ERROR_TEXT_CAPACITY]>(
    context: &mut Context,
    registry: &Registry<H>,
    display: usize,
    error_code: u8,
    request_code: u8,
    minor_code: u8,
    fetch_text: F,
) -> (result: i32)
    requires
        old(context)@.wf(),
        attributable(registry@, old(context)@, display) ==> fetch_text.requires(
            (&registry@[Library::Xlib]->Ok_0,),
        ),
    ensures
        final(context)@.wf(),
        result == CALLBACK_RESULT,
        !attributable(registry@, old(context)@, display) ==> final(context)@ == old(context)@,
        attributable(registry@, old(context)@, display) ==> exists|text: [u8; ERROR_TEXT_CAPACITY], error: XError|
            {
                &&& fetch_text.ensures((&registry@[Library::Xlib]->Ok_0,), text)
                &&& #[trigger] reported(error, error_code, request_code, minor_code, text@)
                &&& final(context)@ == old(context)@.delivered(display, error)
            },
{
    if let Some(Ok(xlib)) = registry.get(Library::Xlib) {
        if context.is_current(display) {
            let text = fetch_text(xlib);
            let error = XError { description: error_text(text.as_slice()), error_code, request_code, minor_code };
            assert(reported(error, error_code, request_code, minor_code, text@));
            context.deliver(display, error);
        }
    }
    CALLBACK_RESULT
}

} // verus!
