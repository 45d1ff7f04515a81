use element_maybe_signal::ElementMaybeSignal;
use leptos::create_runtime;
use leptos::create_rw_signal;
use leptos::SignalSet;
use std::cell::Cell;
use std::rc::Rc;

fn counting_env(count: Rc<Cell<usize>>) -> impl Fn(&str) -> Option<i32> + 'static {
    move |sel: &str| {
        count.set(count.get() + 1);
        match sel {
            "#a" => Some(1),
            "#b" => Some(2),
            _ => None,
        }
    }
}

#[test]
fn reactive_selector_is_lazy() {
    let runtime = create_runtime();
    let count = Rc::new(Cell::new(0usize));
    let sig = create_rw_signal(String::from("#a"));
    let r: ElementMaybeSignal<i32, i32> =
        ElementMaybeSignal::from_signal_query(counting_env(count.clone()), sig.into());
    // Lazy: constructing the reference performs no lookup.
    assert_eq!(count.get(), 0);
    assert_eq!(r.get(), Some(1));
    assert_eq!(count.get(), 1);
    runtime.dispose();
}

#[test]
fn identical_set_does_not_rerun_the_lookup() {
    let runtime = create_runtime();
    let count = Rc::new(Cell::new(0usize));
    let sig = create_rw_signal(String::from("#a"));
    let r: ElementMaybeSignal<i32, i32> =
        ElementMaybeSignal::from_signal_query(counting_env(count.clone()), sig.into());
    assert_eq!(r.get(), Some(1));
    assert_eq!(count.get(), 1);
    // Setting the string cell to the value it already holds must not
    // re-trigger resolution: the memoized result is reused.
    sig.set(String::from("#a"));
    assert_eq!(r.get(), Some(1));
    assert_eq!(count.get(), 1);
    sig.set(String::from("#a"));
    assert_eq!(r.get(), Some(1));
    assert_eq!(count.get(), 1);
    runtime.dispose();
}

#[test]
fn changed_selector_reruns_the_lookup_exactly_once() {
    let runtime = create_runtime();
    let count = Rc::new(Cell::new(0usize));
    let sig = create_rw_signal(String::from("#a"));
    let r: ElementMaybeSignal<i32, i32> =
        ElementMaybeSignal::from_signal_query(counting_env(count.clone()), sig.into());
    assert_eq!(r.get(), Some(1));
    assert_eq!(count.get(), 1);
    // An actual change triggers exactly one new lookup, and the next read
    // reflects the new selector's result.
    sig.set(String::from("#b"));
    assert_eq!(r.get(), Some(2));
    assert_eq!(count.get(), 2);
    assert_eq!(r.get(), Some(2));
    assert_eq!(count.get(), 2);
    runtime.dispose();
}

#[test]
fn reactive_selector_yields_absence_when_nothing_matches() {
    let runtime = create_runtime();
    let count = Rc::new(Cell::new(0usize));
    let sig = create_rw_signal(String::from("#missing"));
    let r: ElementMaybeSignal<i32, i32> =
        ElementMaybeSignal::from_signal_query(counting_env(count.clone()), sig.into());
    assert_eq!(r.get(), None);
    sig.set(String::from("#a"));
    assert_eq!(r.get(), Some(1));
    runtime.dispose();
}
