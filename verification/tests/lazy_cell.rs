use std::sync::atomic::{AtomicUsize, Ordering};

use lazy_init::{Lazy, LazyInit};

/// An integer value whose initializer succeeds with 42, counting how often
/// the production logic runs.
#[derive(Debug, PartialEq, Eq)]
struct Answer(i64);

static ANSWER_INITS: AtomicUsize = AtomicUsize::new(0);

impl LazyInit<Answer, ()> for Answer {
    // The ghost specification of the outcome compiles to an ordinary
    // associated function; mirror the outcome of `init` in it.
    fn init_spec() -> Result<Answer, ()> {
        Ok(Answer(42))
    }

    fn init() -> Result<Answer, ()> {
        ANSWER_INITS.fetch_add(1, Ordering::SeqCst);
        Ok(Answer(42))
    }
}

/// A value whose initializer always fails with a typed error.
#[derive(Debug, PartialEq, Eq)]
struct Boom(i64);

impl LazyInit<Boom, String> for Boom {
    fn init_spec() -> Result<Boom, String> {
        Err(String::from("boom"))
    }

    fn init() -> Result<Boom, String> {
        Err(String::from("boom"))
    }
}

#[test]
fn lazy_until_demanded() {
    let before = ANSWER_INITS.load(Ordering::SeqCst);
    let mut cell: Lazy<Answer, ()> = Lazy::new();
    assert_eq!(cell.get_maybe(), None);
    assert_eq!(cell.get_maybe_mut(), None);
    assert!(!cell.is_in_progress());
    assert_eq!(ANSWER_INITS.load(Ordering::SeqCst), before);
    assert_eq!(cell.get(), Ok(&Answer(42)));
    assert_eq!(ANSWER_INITS.load(Ordering::SeqCst), before + 1);
}

#[test]
fn get_runs_initializer_exactly_once() {
    let before = ANSWER_INITS.load(Ordering::SeqCst);
    let mut cell: Lazy<Answer, ()> = Lazy::new();
    assert_eq!(cell.get_maybe(), None);
    assert_eq!(cell.get(), Ok(&Answer(42)));
    assert_eq!(cell.get(), Ok(&Answer(42)));
    assert_eq!(cell.get(), Ok(&Answer(42)));
    assert_eq!(cell.get_maybe(), Some(&Answer(42)));
    assert_eq!(ANSWER_INITS.load(Ordering::SeqCst), before + 1);
}

#[test]
fn error_propagates_unchanged_and_cell_sticks() {
    let mut cell: Lazy<Boom, String> = Lazy::new();
    assert_eq!(cell.get_maybe(), None);
    assert_eq!(cell.get(), Err(String::from("boom")));
    // The cell is not rolled back: it stays marked in progress, so a further
    // demand or injection is forbidden by contract.
    assert!(cell.is_in_progress());
    assert_eq!(cell.get_maybe(), None);
}

#[test]
fn set_before_demand_preempts_initializer() {
    let before = ANSWER_INITS.load(Ordering::SeqCst);
    let mut cell: Lazy<Answer, ()> = Lazy::new();
    cell.set(Answer(7));
    assert_eq!(cell.get(), Ok(&Answer(7)));
    assert_eq!(ANSWER_INITS.load(Ordering::SeqCst), before);
}

#[test]
fn set_overwrites_evaluated_value() {
    let before = ANSWER_INITS.load(Ordering::SeqCst);
    let mut cell: Lazy<Answer, ()> = Lazy::new();
    assert_eq!(cell.get(), Ok(&Answer(42)));
    cell.set(Answer(9));
    assert_eq!(cell.get_maybe(), Some(&Answer(9)));
    assert_eq!(cell.get(), Ok(&Answer(9)));
    assert_eq!(ANSWER_INITS.load(Ordering::SeqCst), before + 1);
}

#[test]
fn get_mut_hands_out_exclusive_access() {
    let mut cell: Lazy<Answer, ()> = Lazy::new();
    let value = cell.get_mut().unwrap();
    assert_eq!(*value, Answer(42));
    value.0 = 43;
    assert_eq!(cell.get_maybe(), Some(&Answer(43)));
    assert_eq!(cell.get(), Ok(&Answer(43)));
}

#[test]
fn get_maybe_mut_mutates_in_place() {
    let mut cell: Lazy<Answer, ()> = Lazy::new();
    cell.set(Answer(1));
    if let Some(value) = cell.get_maybe_mut() {
        value.0 = 2;
    } else {
        panic!("cell should be evaluated after set");
    }
    assert_eq!(cell.get_maybe(), Some(&Answer(2)));
}

#[test]
fn unit_identity_initializer() {
    let mut cell: Lazy<(), ()> = Lazy::new();
    assert_eq!(cell.get_maybe(), None);
    assert_eq!(cell.get(), Ok(&()));
    assert_eq!(cell.get_maybe(), Some(&()));
}

#[test]
fn default_is_unevaluated() {
    let cell: Lazy<Answer, ()> = Lazy::default();
    assert_eq!(cell.get_maybe(), None);
    assert!(!cell.is_in_progress());
}
