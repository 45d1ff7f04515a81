use element_maybe_signal::ElementMaybeSignal;
use std::cell::Cell;
use std::rc::Rc;

#[test]
fn fixed_get_is_stable_across_reads() {
    let r: ElementMaybeSignal<i32, i32> = ElementMaybeSignal::from_value(5);
    assert_eq!(r.get(), Some(5));
    assert_eq!(r.get(), Some(5));
    assert_eq!(r.get(), Some(5));
    assert_eq!(r.get_untracked(), Some(5));
    assert_eq!(r.try_get(), Some(Some(5)));
    assert_eq!(r.try_get_untracked(), Some(Some(5)));
}

#[test]
fn from_option_preserves_absence() {
    let absent: ElementMaybeSignal<i32, i32> = ElementMaybeSignal::from_option(None);
    assert_eq!(absent.get(), None);
    assert_eq!(absent.try_get(), Some(None));
    let present: ElementMaybeSignal<i32, i32> = ElementMaybeSignal::from_option(Some(9));
    assert_eq!(present.get(), Some(9));
}

#[test]
fn default_is_an_absent_snapshot() {
    let r: ElementMaybeSignal<String, String> = Default::default();
    assert_eq!(r.get(), None);
    assert_eq!(r.get_untracked(), None);
    assert_eq!(r.try_get(), Some(None));
}

#[test]
fn fixed_with_sees_the_snapshot_by_borrow() {
    let r: ElementMaybeSignal<String, String> =
        ElementMaybeSignal::from_value(String::from("widget"));
    let len = r.with(|v| v.as_ref().map(|s| s.len()));
    assert_eq!(len, Some(6));
    let len = r.with_untracked(|v| v.as_ref().map(|s| s.len()));
    assert_eq!(len, Some(6));
    assert_eq!(r.try_with(|v| v.is_some()), Some(true));
    assert_eq!(r.try_with_untracked(|v| v.is_some()), Some(true));
}

#[test]
fn fixed_clone_copies_the_snapshot() {
    let r: ElementMaybeSignal<String, String> =
        ElementMaybeSignal::from_value(String::from("widget"));
    let c = r.clone();
    assert_eq!(c.get(), Some(String::from("widget")));
    assert_eq!(r.get(), Some(String::from("widget")));
}

#[test]
fn static_query_is_eager_and_frozen() {
    let count = Rc::new(Cell::new(0usize));
    let seen = count.clone();
    let env = move |sel: &str| -> Option<i32> {
        seen.set(seen.get() + 1);
        if sel == "#present" {
            Some(42)
        } else {
            None
        }
    };
    let r: ElementMaybeSignal<i32, i32> = ElementMaybeSignal::from_query(env, "#present");
    // The lookup ran exactly once, synchronously, at construction.
    assert_eq!(count.get(), 1);
    assert_eq!(r.get(), Some(42));
    assert_eq!(r.get(), Some(42));
    // The answer is frozen: no read re-evaluates the lookup.
    assert_eq!(count.get(), 1);
}

#[test]
fn query_absence_and_presence() {
    let env = |sel: &str| -> Option<String> {
        if sel == "#present" {
            Some(String::from("widget"))
        } else {
            None
        }
    };
    let missing: ElementMaybeSignal<String, String> =
        ElementMaybeSignal::from_query(env, "#missing");
    assert_eq!(missing.get(), None);
    let found: ElementMaybeSignal<String, String> =
        ElementMaybeSignal::from_query(env, "#present");
    assert_eq!(found.get(), Some(String::from("widget")));
}
