//! What holds of the error slot and of shared connections, whatever the
//! state and the inputs.

use vstd::prelude::*;
use crate::context::{left, ContextView};
use crate::display::{DisplayView, Teardown};
use crate::error::{Error, XError};

verus! {

/// Once the error slot was emptied, by a check or by ignoring what was
/// pending, a check succeeds, whatever the slot held before.
pub proof fn lemma_emptied_slot_checks_clean(display: DisplayView)
    ensures
        display.cleared().check() == Ok::<(), Error>(()),
        display.cleared().cleared() == display.cleared(),
{
}

/// Of two errors that the server raises with no check between them, only
/// the second can be observed: the slot holds one error, not a queue.
pub proof fn lemma_later_error_replaces_earlier(display: DisplayView, first: XError, second: XError)
    ensures
        display.recorded(first).recorded(second) == display.recorded(second),
        display.recorded(first).recorded(second).check() == Err::<(), Error>(Error::XError(second)),
        display.recorded(first).recorded(second).cleared().check() == Ok::<(), Error>(()),
{
}

/// Neither a check nor an error changes the handle of a connection or who
/// owns it.
pub proof fn lemma_slot_keeps_the_connection(display: DisplayView, error: XError)
    ensures
        display.cleared().display == display.display,
        display.cleared().owned == display.owned,
        display.recorded(error).display == display.display,
        display.recorded(error).owned == display.owned,
        display.cleared().teardown() == display.teardown(),
        display.recorded(error).teardown() == display.teardown(),
{
}

/// The same three facts about the slot, for a connection that is reached
/// through a reference: a second check in a row succeeds, an ignored error
/// is not reported, and of two errors in a row the second is the one that a
/// check reports.
pub proof fn lemma_own_connection_keeps_one_error(context: ContextView, display: usize, first: XError, second: XError)
    requires
        context.wf(),
        context.is_current(display),
    ensures
        ({
            let i = context.singleton.unwrap().unwrap();
            let twice = context.delivered(display, first).delivered(display, second);
            &&& context.cleared(i).check(i) == Ok::<(), Error>(())
            &&& context.delivered(display, first).cleared(i).check(i) == Ok::<(), Error>(())
            &&& twice == context.delivered(display, second)
            &&& twice.check(i) == Err::<(), Error>(Error::XError(second))
            &&& twice.wf()
        }),
{
    let once = context.delivered(display, first);
    assert(once.delivered(display, second).connections =~= context.delivered(display, second).connections);
}

/// A reference that was adopted by the handle of the process's own
/// connection names that very connection. So an error that the server
/// raises on the handle afterwards is what a check through the adopted
/// reference reports, and a check through it empties the slot for every
/// other holder.
pub proof fn lemma_adopted_reference_shares_slot(context: ContextView, display: usize, error: XError)
    requires
        context.wf(),
        context.is_current(display),
    ensures
        ({
            let own = context.singleton.unwrap().unwrap();
            let adopted = context.adopted_index(display);
            let after = context.adopted(display);
            &&& adopted == own
            &&& after.wf()
            &&& after.singleton == context.singleton
            &&& after.connections.len() == context.connections.len()
            &&& after.connections[own].display == context.connections[own].display
            &&& after.holds(adopted)
            &&& after.delivered(display, error).check(adopted) == Err::<(), Error>(Error::XError(error))
            &&& after.delivered(display, error).cleared(adopted).check(own) == Ok::<(), Error>(())
        }),
{
}

/// A handle other than that of the process's own connection is adopted as a
/// wrapper of its own that does not own the handle. Letting go of it never
/// asks for the native connection to be closed, however many references to
/// it were made and released, and errors of the server never reach it.
pub proof fn lemma_foreign_connection_is_never_closed(context: ContextView, display: usize, error: XError)
    requires
        context.wf(),
        !context.is_current(display),
    ensures
        ({
            let adopted = context.adopted_index(display);
            let after = context.adopted(display);
            &&& after.wf()
            &&& adopted == context.connections.len()
            &&& after.connections[adopted].display == (DisplayView { display, latest_error: None, owned: false })
            &&& after.holds(adopted)
            &&& after.release_action(adopted) == Teardown::Keep
            &&& after.retained(adopted).release_action(adopted) == Teardown::Keep
            &&& after.retained(adopted).released(adopted).release_action(adopted) == Teardown::Keep
            &&& after.delivered(display, error).connections[adopted] == after.connections[adopted]
        }),
{
}

/// A connection that does not own its handle is never to be closed.
pub proof fn lemma_borrowed_handle_stays_open(context: ContextView, i: int)
    requires
        0 <= i < context.connections.len(),
        !context.connections[i].display.owned,
    ensures
        context.release_action(i) == Teardown::Keep,
        !context.released(i).connections[i].display.owned,
        !context.retained(i).connections[i].display.owned,
        !context.cleared(i).connections[i].display.owned,
{
}

/// The native connection is closed at most once: the release that asks for
/// it leaves the connection without holders, and a connection without
/// holders admits no further release.
pub proof fn lemma_close_happens_once(context: ContextView, i: int)
    requires
        context.wf(),
        context.holds(i),
        context.release_action(i) is Close,
    ensures
        context.release_action(i) == Teardown::Close(context.connections[i].display.display),
        context.connections[i].display.owned,
        context.connections[i].holders == 1,
        context.released(i).connections[i].holders == 0,
        !context.released(i).holds(i),
        context.released(i).wf(),
{
}

/// While anyone but the last holder lets go, the connection stays open.
pub proof fn lemma_open_while_held(context: ContextView, i: int)
    requires
        context.wf(),
        context.holds(i),
        left(context.connections[i].holders) > 0,
    ensures
        context.release_action(i) == Teardown::Keep,
        context.released(i).wf(),
{
}

/// The process's own connection is closed by the context alone, and only
/// once every reference to it was released.
pub proof fn lemma_own_connection_outlives_references(context: ContextView)
    requires
        context.wf(),
        context.singleton matches Some(Ok(_)),
    ensures
        ({
            let own = context.singleton.unwrap().unwrap();
            &&& context.holds(own) ==> context.release_action(own) == Teardown::Keep
            &&& context.holds(own) ==> context.shutdown_action() == Teardown::Keep
            &&& context.connections[own].holders == 1 ==> context.shutdown_action() == Teardown::Close(
                context.connections[own].display.display,
            )
        }),
{
}

} // verus!
