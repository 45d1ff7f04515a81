//! Trusted boundary to the reactive runtime and to the ambient document.
//!
//! Everything here either declares an outside type so that it may appear in
//! signatures, or wraps one outside call in a function whose contract states
//! only what that call's own source and documentation show. The logic that
//! is proved in this crate lives in [`crate::element_maybe_signal`] and
//! reaches the runtime only through these items.

use leptos::SignalGet;
use leptos::SignalGetUntracked;
use leptos::SignalWith;
use leptos::SignalWithUntracked;
use vstd::prelude::*;

verus! {

/// `leptos::Signal` is a read-only handle into the reactive runtime; a copy
/// of the handle denotes the same underlying cell.
#[verifier::external_type_specification]
#[verifier::external_body]
#[verifier::reject_recursive_types(T)]
pub struct ExSignal<T: 'static>(leptos::Signal<T>);

/// `leptos::ReadSignal` is the read half of a writable reactive cell.
#[verifier::external_type_specification]
#[verifier::external_body]
#[verifier::reject_recursive_types(T)]
pub struct ExReadSignal<T: 'static>(leptos::ReadSignal<T>);

/// `leptos::RwSignal` is a combined read/write handle to a reactive cell.
#[verifier::external_type_specification]
#[verifier::external_body]
#[verifier::reject_recursive_types(T)]
pub struct ExRwSignal<T: 'static>(leptos::RwSignal<T>);

/// `leptos::Memo` is a derived reactive cell that recomputes when a tracked
/// dependency changes and notifies dependents only when its value changes.
#[verifier::external_type_specification]
#[verifier::external_body]
#[verifier::reject_recursive_types(T)]
pub struct ExMemo<T: 'static>(leptos::Memo<T>);

/// `web_sys::Element` is an opaque handle to a node of the ambient document.
#[verifier::external_type_specification]
#[verifier::external_body]
pub struct ExElement(web_sys::Element);

/// `web_sys::EventTarget` is an opaque handle to anything events can reach.
#[verifier::external_type_specification]
#[verifier::external_body]
pub struct ExEventTarget(web_sys::EventTarget);

/// Relies on `leptos::SignalGet::get` for `Signal`: a tracked read that
/// clones the cell's current value and subscribes the calling reactive
/// computation, if any. The value read depends on the state of the runtime,
/// so nothing is promised of it; the call aborts if the cell's owning
/// reactive context has been disposed.
#[verifier::external_body]
pub(crate) fn signal_get<T: Clone + 'static>(s: &leptos::Signal<Option<T>>) -> Option<T> {
    s.get()
}

/// Relies on `leptos::SignalGet::try_get` for `Signal`: as `get`, but when
/// the owning reactive context has been disposed it returns `None` instead
/// of aborting.
#[verifier::external_body]
pub(crate) fn signal_try_get<T: Clone + 'static>(
    s: &leptos::Signal<Option<T>>,
) -> Option<Option<T>> {
    s.try_get()
}

/// Relies on `leptos::SignalGetUntracked::get_untracked` for `Signal`: as
/// `get`, but the calling computation is never subscribed.
#[verifier::external_body]
pub(crate) fn signal_get_untracked<T: Clone + 'static>(
    s: &leptos::Signal<Option<T>>,
) -> Option<T> {
    s.get_untracked()
}

/// Relies on `leptos::SignalGetUntracked::try_get_untracked` for `Signal`:
/// as `try_get`, without subscribing.
#[verifier::external_body]
pub(crate) fn signal_try_get_untracked<T: Clone + 'static>(
    s: &leptos::Signal<Option<T>>,
) -> Option<Option<T>> {
    s.try_get_untracked()
}

/// Relies on `leptos::SignalWith::with` for `Signal`: applies `f` to a
/// borrow of the cell's current value, tracked. Which value `f` sees depends
/// on the state of the runtime, so only this much is promised: the result is
/// what `f` returned for some optional value. Aborts if the owning reactive
/// context has been disposed.
#[verifier::external_body]
pub(crate) fn signal_with<T: 'static, O, F: FnOnce(&Option<T>) -> O>(
    s: &leptos::Signal<Option<T>>,
    f: F,
) -> (r: O)
    requires
        forall|v: Option<T>| call_requires(f, (&v,)),
    ensures
        exists|v: Option<T>| call_ensures(f, (&v,), r),
{
    s.with(f)
}

/// Relies on `leptos::SignalWith::try_with` for `Signal`: as `with`, but
/// when the owning reactive context has been disposed it returns `None`
/// instead of aborting, and `f` is not called.
#[verifier::external_body]
pub(crate) fn signal_try_with<T: 'static, O, F: FnOnce(&Option<T>) -> O>(
    s: &leptos::Signal<Option<T>>,
    f: F,
) -> (r: Option<O>)
    requires
        forall|v: Option<T>| call_requires(f, (&v,)),
    ensures
        r is Some ==> exists|v: Option<T>| call_ensures(f, (&v,), r->0),
{
    s.try_with(f)
}

/// Relies on `leptos::SignalWithUntracked::with_untracked` for `Signal`: as
/// `with`, without subscribing.
#[verifier::external_body]
pub(crate) fn signal_with_untracked<T: 'static, O, F: FnOnce(&Option<T>) -> O>(
    s: &leptos::Signal<Option<T>>,
    f: F,
) -> (r: O)
    requires
        forall|v: Option<T>| call_requires(f, (&v,)),
    ensures
        exists|v: Option<T>| call_ensures(f, (&v,), r),
{
    s.with_untracked(f)
}

/// Relies on `leptos::SignalWithUntracked::try_with_untracked` for
/// `Signal`: as `try_with`, without subscribing.
#[verifier::external_body]
pub(crate) fn signal_try_with_untracked<T: 'static, O, F: FnOnce(&Option<T>) -> O>(
    s: &leptos::Signal<Option<T>>,
    f: F,
) -> (r: Option<O>)
    requires
        forall|v: Option<T>| call_requires(f, (&v,)),
    ensures
        r is Some ==> exists|v: Option<T>| call_ensures(f, (&v,), r->0),
{
    s.try_with_untracked(f)
}

/// Relies on `From<ReadSignal<T>> for Signal<T>`: wraps the same underlying
/// cell in the read-only handle, so reads through the result are reads of
/// that cell.
#[verifier::external_body]
pub(crate) fn into_signal_read<T: 'static>(s: leptos::ReadSignal<T>) -> leptos::Signal<T> {
    s.into()
}

/// Relies on `From<RwSignal<T>> for Signal<T>`: wraps the read half of the
/// same underlying cell.
#[verifier::external_body]
pub(crate) fn into_signal_rw<T: 'static>(s: leptos::RwSignal<T>) -> leptos::Signal<T> {
    s.into()
}

/// Relies on `From<Memo<T>> for Signal<T>`: wraps the same derived cell.
#[verifier::external_body]
pub(crate) fn into_signal_memo<T: 'static>(s: leptos::Memo<T>) -> leptos::Signal<T> {
    s.into()
}

/// Relies on `leptos::Signal::derive` and `SignalGet::get`: the result is a
/// derived cell that, on each read, yields the source cell's current value
/// wrapped in presence, inheriting the source's tracking and disposal
/// behavior.
#[verifier::external_body]
pub(crate) fn derive_some<T: Clone + 'static>(
    s: leptos::Signal<T>,
) -> leptos::Signal<Option<T>> {
    leptos::Signal::derive(move || Some(s.get()))
}

/// Relies on `leptos::create_memo`, `SignalGet::get` and
/// `From<Memo<T>> for Signal<T>`: the result is a lazy memoized cell that
/// reads `source`, hands the text to the injected lookup capability
/// `query`, and caches the outcome. The inner memo holds the current text,
/// so the outer memo — and with it `query` — reruns only when the text's
/// value actually changes; a write of an equal text reuses the cache. No
/// lookup runs before the first read. The closures handed to the runtime
/// call only `query` and the runtime's own reads.
#[verifier::external_body]
pub(crate) fn memoized_query<T, F>(
    query: F,
    source: leptos::Signal<String>,
) -> leptos::Signal<Option<T>> where
    T: Clone + PartialEq + 'static,
    F: Fn(&str) -> Option<T> + 'static,

    requires
        forall|v: &str| call_requires(query, (v,)),
{
    let text = leptos::create_memo(move |_| source.get());
    let looked_up = leptos::create_memo(move |_| {
        let t = text.get();
        query(&t)
    });
    looked_up.into()
}

/// Relies on `leptos::document` and `web_sys::Document::query_selector`:
/// resolves a selector against the ambient document, yielding the first
/// matching element, or absence when nothing matches — a malformed selector
/// is merged into the same absence. The result depends on the document, so
/// nothing is promised of it. Only meaningful in a browser.
#[verifier::external_body]
pub(crate) fn document_query(selector: &str) -> Option<web_sys::Element> {
    leptos::document().query_selector(selector).unwrap_or_default()
}

} // verus!
