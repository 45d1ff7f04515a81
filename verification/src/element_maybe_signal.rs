//! The reactive reference itself: a two-state container that is either an
//! immutable snapshot captured at construction time or a shared handle into
//! a live, dependency-tracked cell.

use crate::reactive::derive_some;
use crate::reactive::document_query;
use crate::reactive::into_signal_memo;
use crate::reactive::into_signal_read;
use crate::reactive::into_signal_rw;
use crate::reactive::memoized_query;
use crate::reactive::signal_get;
use crate::reactive::signal_get_untracked;
use crate::reactive::signal_try_get;
use crate::reactive::signal_try_get_untracked;
use crate::reactive::signal_try_with;
use crate::reactive::signal_try_with_untracked;
use crate::reactive::signal_with;
use crate::reactive::signal_with_untracked;
use core::marker::PhantomData;
use vstd::prelude::*;

verus! {

/// A value that a consumer can read as "a resource, or maybe no resource,
/// possibly changing over time", however it was produced.
///
/// Exactly one of two states, fixed at construction:
/// - `Static`: an immutable snapshot of an optional resource, captured once;
/// - `Dynamic`: a shared handle into a reactive cell whose value may change
///   over time, independently of this reference. Cloning duplicates the
///   handle, not the value: every clone observes the same live cell.
///
/// `E` is the target capability type the resource is narrowed to for the
/// consumer's purposes; it carries no runtime state.
#[verifier::reject_recursive_types(T)]
pub enum ElementMaybeSignal<T, E> where T: Into<E> + Clone + 'static {
    Static(Option<T>, PhantomData<E>),
    Dynamic(leptos::Signal<Option<T>>, PhantomData<E>),
}

/// `out` is what a clone of the optional snapshot `src` may be: absence is
/// preserved exactly, and a present resource is related to the original by
/// its `Clone` implementation.
pub open spec fn option_cloned<T: Clone>(src: Option<T>, out: Option<T>) -> bool {
    &&& src is None ==> out is None
    &&& src is Some ==> out is Some && cloned::<T>(src->0, out->0)
}

impl<T, E> ElementMaybeSignal<T, E> where T: Into<E> + Clone + 'static {
    // ------------------------------------------------------------------
    // The accessor contract: tracked and untracked reads, each eager and
    // closure-based, each with a fallible form.
    // ------------------------------------------------------------------

    /// Tracked read: a clone of the current optional resource.
    ///
    /// On a `Static` reference this is the snapshot, every time, and there
    /// is nothing to track. On a `Dynamic` reference it is whatever the
    /// underlying cell currently holds; the calling reactive computation,
    /// if any, is subscribed to future changes, and the call aborts if the
    /// cell's owning reactive context has been disposed.
    pub fn get(&self) -> (r: Option<T>)
        ensures
            self is Static ==> option_cloned(self->Static_0, r),
    {
        match self {
            Self::Static(t, _) => t.clone(),
            Self::Dynamic(s, _) => signal_get(s),
        }
    }

    /// As [`Self::get`], but when the owning reactive context of a
    /// `Dynamic` cell has been disposed it signals "no result" instead of
    /// aborting. On a `Static` reference it always succeeds.
    pub fn try_get(&self) -> (r: Option<Option<T>>)
        ensures
            self is Static ==> r is Some && option_cloned(self->Static_0, r->0),
    {
        match self {
            Self::Static(t, _) => Some(t.clone()),
            Self::Dynamic(s, _) => signal_try_get(s),
        }
    }

    /// Untracked read: as [`Self::get`], but the calling computation is
    /// never subscribed; a `Static` reference behaves identically under
    /// both.
    pub fn get_untracked(&self) -> (r: Option<T>)
        ensures
            self is Static ==> option_cloned(self->Static_0, r),
    {
        match self {
            Self::Static(t, _) => t.clone(),
            Self::Dynamic(s, _) => signal_get_untracked(s),
        }
    }

    /// As [`Self::try_get`], without subscribing.
    pub fn try_get_untracked(&self) -> (r: Option<Option<T>>)
        ensures
            self is Static ==> r is Some && option_cloned(self->Static_0, r->0),
    {
        match self {
            Self::Static(t, _) => Some(t.clone()),
            Self::Dynamic(s, _) => signal_try_get_untracked(s),
        }
    }

    /// Tracked closure read: applies `f` to a borrow of the current
    /// optional resource, avoiding a clone.
    ///
    /// On a `Static` reference `f` sees exactly the snapshot. On a
    /// `Dynamic` reference `f` sees whatever the cell currently holds, the
    /// caller is subscribed as in [`Self::get`], and the call aborts if the
    /// owning reactive context has been disposed.
    pub fn with<O, F: FnOnce(&Option<T>) -> O>(&self, f: F) -> (r: O)
        requires
            self is Static ==> call_requires(f, (&self->Static_0,)),
            self is Dynamic ==> forall|v: Option<T>| call_requires(f, (&v,)),
        ensures
            self is Static ==> call_ensures(f, (&self->Static_0,), r),
            self is Dynamic ==> exists|v: Option<T>| call_ensures(f, (&v,), r),
    {
        match self {
            Self::Static(t, _) => f(t),
            Self::Dynamic(s, _) => signal_with(s, f),
        }
    }

    /// As [`Self::with`], but when the owning reactive context of a
    /// `Dynamic` cell has been disposed it returns "no result" instead of
    /// aborting, and `f` is not called. On a `Static` reference it always
    /// succeeds.
    pub fn try_with<O, F: FnOnce(&Option<T>) -> O>(&self, f: F) -> (r: Option<O>)
        requires
            self is Static ==> call_requires(f, (&self->Static_0,)),
            self is Dynamic ==> forall|v: Option<T>| call_requires(f, (&v,)),
        ensures
            self is Static ==> r is Some && call_ensures(f, (&self->Static_0,), r->0),
            self is Dynamic ==> r is Some ==> exists|v: Option<T>| call_ensures(f, (&v,), r->0),
    {
        match self {
            Self::Static(t, _) => Some(f(t)),
            Self::Dynamic(s, _) => signal_try_with(s, f),
        }
    }

    /// As [`Self::with`], without subscribing.
    pub fn with_untracked<O, F: FnOnce(&Option<T>) -> O>(&self, f: F) -> (r: O)
        requires
            self is Static ==> call_requires(f, (&self->Static_0,)),
            self is Dynamic ==> forall|v: Option<T>| call_requires(f, (&v,)),
        ensures
            self is Static ==> call_ensures(f, (&self->Static_0,), r),
            self is Dynamic ==> exists|v: Option<T>| call_ensures(f, (&v,), r),
    {
        match self {
            Self::Static(t, _) => f(t),
            Self::Dynamic(s, _) => signal_with_untracked(s, f),
        }
    }

    /// As [`Self::try_with`], without subscribing.
    pub fn try_with_untracked<O, F: FnOnce(&Option<T>) -> O>(&self, f: F) -> (r: Option<O>)
        requires
            self is Static ==> call_requires(f, (&self->Static_0,)),
            self is Dynamic ==> forall|v: Option<T>| call_requires(f, (&v,)),
        ensures
            self is Static ==> r is Some && call_ensures(f, (&self->Static_0,), r->0),
            self is Dynamic ==> r is Some ==> exists|v: Option<T>| call_ensures(f, (&v,), r->0),
    {
        match self {
            Self::Static(t, _) => Some(f(t)),
            Self::Dynamic(s, _) => signal_try_with_untracked(s, f),
        }
    }

    // ------------------------------------------------------------------
    // Source conversions: one named constructor per accepted input shape,
    // each mapping to exactly one of the two states.
    // ------------------------------------------------------------------

    /// A bare resource becomes a present snapshot.
    pub fn from_value(value: T) -> (r: Self)
        ensures
            r is Static && r->Static_0 == Some(value),
    {
        Self::Static(Some(value), PhantomData)
    }

    /// An optional resource becomes a snapshot that preserves absence.
    pub fn from_option(value: Option<T>) -> (r: Self)
        ensures
            r is Static && r->Static_0 == value,
    {
        Self::Static(value, PhantomData)
    }

    /// A reactive cell of an optional resource is taken live as it is.
    pub fn from_signal_option(signal: leptos::Signal<Option<T>>) -> (r: Self)
        ensures
            r is Dynamic && r->Dynamic_0 == signal,
    {
        Self::Dynamic(signal, PhantomData)
    }

    /// As [`Self::from_signal_option`], from the read half of a writable
    /// cell holding the same optional resource.
    pub fn from_read_signal_option(signal: leptos::ReadSignal<Option<T>>) -> (r: Self)
        ensures
            r is Dynamic,
    {
        Self::Dynamic(into_signal_read(signal), PhantomData)
    }

    /// As [`Self::from_signal_option`], from a read/write cell.
    pub fn from_rw_signal_option(signal: leptos::RwSignal<Option<T>>) -> (r: Self)
        ensures
            r is Dynamic,
    {
        Self::Dynamic(into_signal_rw(signal), PhantomData)
    }

    /// As [`Self::from_signal_option`], from a memoized derived cell.
    pub fn from_memo_option(signal: leptos::Memo<Option<T>>) -> (r: Self)
        ensures
            r is Dynamic,
    {
        Self::Dynamic(into_signal_memo(signal), PhantomData)
    }

    /// A reactive cell of a plain, never-absent resource is wrapped in a
    /// derived cell that always yields presence, to match the optional
    /// contract.
    pub fn from_signal(signal: leptos::Signal<T>) -> (r: Self)
        ensures
            r is Dynamic,
    {
        Self::Dynamic(derive_some(signal), PhantomData)
    }

    /// As [`Self::from_signal`], from the read half of a writable cell.
    pub fn from_read_signal(signal: leptos::ReadSignal<T>) -> (r: Self)
        ensures
            r is Dynamic,
    {
        Self::Dynamic(derive_some(into_signal_read(signal)), PhantomData)
    }

    /// As [`Self::from_signal`], from a read/write cell.
    pub fn from_rw_signal(signal: leptos::RwSignal<T>) -> (r: Self)
        ensures
            r is Dynamic,
    {
        Self::Dynamic(derive_some(into_signal_rw(signal)), PhantomData)
    }

    /// As [`Self::from_signal`], from a memoized derived cell.
    pub fn from_memo(signal: leptos::Memo<T>) -> (r: Self)
        ensures
            r is Dynamic,
    {
        Self::Dynamic(derive_some(into_signal_memo(signal)), PhantomData)
    }

    /// Eager one-shot lookup through an injected capability: `query` runs
    /// exactly once, now, and its answer — present or absent — is frozen
    /// into a snapshot, never re-evaluated.
    pub fn from_query<F: FnOnce(&str) -> Option<T>>(query: F, selector: &str) -> (r: Self)
        requires
            call_requires(query, (selector,)),
        ensures
            r is Static && call_ensures(query, (selector,), r->Static_0),
    {
        Self::Static(query(selector), PhantomData)
    }

    /// Lazy memoized lookup through an injected capability: no lookup runs
    /// now; each later read yields the cached answer of `query` for the
    /// string cell's current value, and `query` reruns only when that value
    /// actually changes.
    pub fn from_signal_query<F: Fn(&str) -> Option<T> + 'static>(
        query: F,
        signal: leptos::Signal<String>,
    ) -> (r: Self) where T: PartialEq
        requires
            forall|v: &str| call_requires(query, (v,)),
        ensures
            r is Dynamic,
    {
        Self::Dynamic(memoized_query(query, signal), PhantomData)
    }
}

impl<E> ElementMaybeSignal<web_sys::Element, E> where E: From<web_sys::Element> + 'static {
    /// A literal selector string resolves eagerly against the ambient
    /// document: the lookup runs once, now, and the answer is frozen into a
    /// snapshot — absence both when nothing matches and when the selector
    /// is malformed.
    pub fn from_selector(selector: &str) -> (r: Self)
        ensures
            r is Static,
    {
        Self::Static(document_query(selector), PhantomData)
    }

    /// As [`Self::from_selector`], taking the selector by value.
    pub fn from_selector_string(selector: String) -> (r: Self)
        ensures
            r is Static,
    {
        Self::Static(document_query(selector.as_str()), PhantomData)
    }

    /// A reactive selector string resolves lazily against the ambient
    /// document, memoized: the lookup reruns only when the string's value
    /// actually changes.
    pub fn from_signal_selector(signal: leptos::Signal<String>) -> (r: Self)
        ensures
            r is Dynamic,
    {
        let query = |s: &str| -> Option<web_sys::Element> { document_query(s) };
        Self::Dynamic(memoized_query(query, signal), PhantomData)
    }
}

impl<T, E> Clone for ElementMaybeSignal<T, E> where T: Into<E> + Clone + 'static {
    /// Cloning a `Static` reference clones the snapshot; cloning a
    /// `Dynamic` reference duplicates the handle itself, so the clone
    /// observes the very same live cell.
    fn clone(&self) -> (r: Self)
        ensures
            self is Static ==> r is Static && option_cloned(self->Static_0, r->Static_0),
            self is Dynamic ==> r == self,
    {
        match self {
            Self::Static(t, _) => Self::Static(t.clone(), PhantomData),
            Self::Dynamic(s, _) => Self::Dynamic(*s, PhantomData),
        }
    }
}

impl<T, E> Default for ElementMaybeSignal<T, E> where T: Into<E> + Clone + 'static {
    /// The default reference is an absent snapshot.
    fn default() -> (r: Self)
        ensures
            r is Static && r->Static_0 is None,
    {
        Self::Static(None, PhantomData)
    }
}

// ----------------------------------------------------------------------
// Laws.
// ----------------------------------------------------------------------

/// Law: a reference in the `Static` state answers every read with the same
/// snapshot. Any two results admitted by the contracts of `get`,
/// `get_untracked`, or the payloads of `try_get` / `try_get_untracked` on
/// the same `Static` reference are equal, provided `T`'s `Clone` yields
/// values equal to their original.
pub proof fn lemma_static_reads_agree<T, E>(
    r: &ElementMaybeSignal<T, E>,
    first: Option<T>,
    second: Option<T>,
) where T: Into<E> + Clone + 'static
    requires
        forall|a: T, b: T| cloned::<T>(a, b) ==> a == b,
        r is Static,
        option_cloned(r->Static_0, first),
        option_cloned(r->Static_0, second),
    ensures
        first == second,
{
}

/// Law: every source conversion yields exactly one of the two states, and
/// the state never changes afterwards — the type has no third state and no
/// transition, so a reference built from a snapshot shape can never be
/// observed live, nor the reverse.
pub proof fn lemma_two_states<T, E>(r: &ElementMaybeSignal<T, E>) where
    T: Into<E> + Clone + 'static,

    ensures
        (r is Static) != (r is Dynamic),
{
}

} // verus!
