//! The record of which libraries were loaded.
//!
//! Each library is loaded at most once. What the first attempt gave, a handle
//! or a failure, is kept for good and handed to every later caller.

use vstd::prelude::*;
use crate::error::LoadError;
use crate::library::{Library, LIBRARY_COUNT};

verus! {

/// What stays cached once `attempt` has been offered: the outcome that was
/// there first.
pub open spec fn settled<T>(cached: Option<Result<T, LoadError>>, attempt: Result<T, LoadError>) -> Option<
    Result<T, LoadError>,
> {
    if cached is Some {
        cached
    } else {
        Some(attempt)
    }
}

/// What stays cached once each of `attempts` has been offered in turn.
pub open spec fn settled_all<T>(cached: Option<Result<T, LoadError>>, attempts: Seq<Result<T, LoadError>>) -> Option<
    Result<T, LoadError>,
>
    decreases attempts.len(),
{
    if attempts.len() == 0 {
        cached
    } else {
        settled(settled_all(cached, attempts.drop_last()), attempts.last())
    }
}

/// However many callers look a library up, and whatever their own attempts
/// would give, only the first of them finds the library unresolved, and all
/// of them observe the outcome of that first attempt.
pub proof fn lemma_first_attempt_wins<T>(attempts: Seq<Result<T, LoadError>>, k: int)
    requires
        1 <= k <= attempts.len(),
    ensures
        settled_all(None, attempts.take(k)) == Some(attempts[0]),
        settled_all(None, attempts.take(0)) == None::<Result<T, LoadError>>,
    decreases k,
{
    assert(attempts.take(k).drop_last() =~= attempts.take(k - 1));
    if k > 1 {
        lemma_first_attempt_wins(attempts, k - 1);
    }
}

/// A resolved library stays as it is, whatever is offered afterwards.
pub proof fn lemma_resolved_is_permanent<T>(outcome: Result<T, LoadError>, attempts: Seq<Result<T, LoadError>>)
    ensures
        settled_all(Some(outcome), attempts) == Some(outcome),
    decreases attempts.len(),
{
    if attempts.len() > 0 {
        lemma_resolved_is_permanent(outcome, attempts.drop_last());
    }
}

/// The handle of one library: not asked for yet, loaded, or failed to load.
pub struct ExtensionHandle<T> {
    outcome: Option<Result<T, LoadError>>,
}

impl<T> ExtensionHandle<T> {
    /// What the first attempt gave, if there was one.
    pub closed spec fn cached(&self) -> Option<Result<T, LoadError>> {
        self.outcome
    }

    /// A handle that nobody has asked for yet.
    pub fn new() -> (handle: Self)
        ensures
            handle.cached() is None,
    {
        ExtensionHandle { outcome: None }
    }

    /// The cached outcome, without any attempt to load.
    pub fn get(&self) -> (outcome: Option<&Result<T, LoadError>>)
        ensures
            outcome is Some <==> self.cached() is Some,
            outcome matches Some(o) ==> *o == self.cached().unwrap(),
    {
        self.outcome.as_ref()
    }

    /// Records what a load attempt gave, unless an earlier outcome is cached
    /// already, and returns the outcome that callers see from now on.
    pub fn resolve(&mut self, attempt: Result<T, LoadError>) -> (outcome: &Result<T, LoadError>)
        ensures
            final(self).cached() == settled(old(self).cached(), attempt),
            Some(*outcome) == final(self).cached(),
    {
        if self.outcome.is_none() {
            self.outcome = Some(attempt);
        }
        self.outcome.as_ref().unwrap()
    }

    /// Returns the cached outcome. Only where there is none yet, `load` is
    /// called, and what it gives is cached for good.
    pub fn get_or_load<F: FnOnce() -> Result<T, LoadError>>(&mut self, load: F) -> (outcome: &Result<T, LoadError>)
        requires
            old(self).cached() is None ==> load.requires(()),
        ensures
            old(self).cached() is None ==> load.ensures((), *outcome),
            final(self).cached() == settled(old(self).cached(), *outcome),
            Some(*outcome) == final(self).cached(),
    {
        if self.outcome.is_none() {
            let attempt = load();
            self.outcome = Some(attempt);
        }
        self.outcome.as_ref().unwrap()
    }
}

/// Whether `after` is `before` with `library` resolved: what was cached for
/// it stays, an unresolved library now holds some outcome, and no other
/// library has changed.
pub open spec fn resolved_in<H>(
    before: Map<Library, Result<H, LoadError>>,
    after: Map<Library, Result<H, LoadError>>,
    library: Library,
) -> bool {
    &&& after.dom().contains(library)
    &&& after == if before.dom().contains(library) {
        before
    } else {
        before.insert(library, after[library])
    }
}

/// The handles of all libraries, each loaded on its own.
pub struct Registry<H> {
    handles: Vec<ExtensionHandle<H>>,
}

impl<H> Registry<H> {
    #[verifier::type_invariant]
    spec fn well_formed(&self) -> bool {
        self.handles.len() == LIBRARY_COUNT
    }

    /// The libraries that were asked for, each with the outcome of its first
    /// load attempt.
    pub closed spec fn view(&self) -> Map<Library, Result<H, LoadError>> {
        Map::new(
            |library: Library| self.handles[library.spec_index()].cached() is Some,
            |library: Library| self.handles[library.spec_index()].cached().unwrap(),
        )
    }

    /// A registry in which no library has been asked for.
    pub fn new() -> (registry: Self)
        ensures
            registry@ == Map::<Library, Result<H, LoadError>>::empty(),
    {
        let mut handles: Vec<ExtensionHandle<H>> = Vec::new();
        while handles.len() < LIBRARY_COUNT
            invariant
                handles.len() <= LIBRARY_COUNT,
                forall|i: int| 0 <= i < handles.len() ==> handles[i].cached() is None,
            decreases LIBRARY_COUNT - handles.len(),
        {
            handles.push(ExtensionHandle::new());
        }
        let registry = Registry { handles };
        registry
    }

    /// The cached outcome for `library`, without any attempt to load it.
    pub fn get(&self, library: Library) -> (outcome: Option<&Result<H, LoadError>>)
        ensures
            outcome is Some <==> self@.dom().contains(library),
            outcome matches Some(o) ==> *o == self@[library],
    {
        proof {
            use_type_invariant(self);
        }
        self.handles[library.index()].get()
    }

    /// Records what a load attempt for `library` gave, unless an earlier
    /// outcome is cached already, and returns the outcome that callers see
    /// from now on. No other library is touched.
    pub fn resolve(&mut self, library: Library, attempt: Result<H, LoadError>) -> (outcome: &Result<H, LoadError>)
        ensures
            final(self)@ == if old(self)@.dom().contains(library) {
                old(self)@
            } else {
                old(self)@.insert(library, attempt)
            },
            *outcome == final(self)@[library],
    {
        proof {
            use_type_invariant(&*self);
        }
        let i = library.index();
        self.handles[i].resolve(attempt);
        assert(self@ =~= if old(self)@.dom().contains(library) {
            old(self)@
        } else {
            old(self)@.insert(library, attempt)
        });
        self.handles[i].get().unwrap()
    }

    /// Returns the cached outcome for `library`. Only where there is none
    /// yet, `load` is called, and what it gives is cached for good. No other
    /// library is touched.
    pub fn get_or_load<F: FnOnce() -> Result<H, LoadError>>(&mut self, library: Library, load: F) -> (outcome:
        &Result<H, LoadError>)
        requires
            !old(self)@.dom().contains(library) ==> load.requires(()),
        ensures
            resolved_in(old(self)@, final(self)@, library),
            !old(self)@.dom().contains(library) ==> load.ensures((), *outcome),
            *outcome == final(self)@[library],
    {
        proof {
            use_type_invariant(&*self);
        }
        let i = library.index();
        self.handles[i].get_or_load(load);
        assert(self@ =~= if old(self)@.dom().contains(library) {
            old(self)@
        } else {
            old(self)@.insert(library, self@[library])
        });
        self.handles[i].get().unwrap()
    }
}

} // verus!
