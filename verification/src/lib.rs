//! Single-slot lazy-initialization cell.
//!
//! A [`Lazy`] cell holds either no value yet, a marker that evaluation is
//! underway, or the value it produced. The production logic is bound to the
//! value's type through the [`LazyInit`] trait rather than supplied as a
//! closure, and it may fail with a typed error, which the cell propagates
//! unchanged to the caller.
//!
//! The cell is a single-owner, single-thread primitive: every state
//! transition goes through a method that takes the cell exclusively, and the
//! contracts rule out demanding a value, or injecting one, while an
//! evaluation of the same cell is still underway.

use core::marker::PhantomData;
use vstd::prelude::*;

verus! {

/// The observable phase of a [`Lazy`] cell: its view, reached through `@`
/// in specifications. Executable code never reads or writes a cell's phase
/// directly; every transition goes through the cell's own methods.
pub enum StateView<T> {
    /// No computation has started.
    Unevaluated,
    /// A computation is underway, or a previous one failed and was not rolled
    /// back. Demanding or injecting a value in this phase is forbidden.
    InProgress,
    /// The cell holds its produced value; terminal but for an explicit
    /// overwrite through [`Lazy::set`].
    Evaluated(T),
}

enum State<T> {
    Unevaluated,
    InProgress,
    Evaluated(T),
}

/// The "constructor" bound to a lazily produced type: how a value of type
/// `T` produces itself, with no per-call parameters, possibly failing with a
/// typed error `E`.
///
/// An implementation fixes the outcome of its production logic in
/// [`LazyInit::init_spec`], and [`LazyInit::init`] must return exactly that
/// outcome; the contracts of [`Lazy::get`] and [`Lazy::get_mut`] then say
/// precisely which value, or which error, the cell hands back.
pub trait LazyInit<T, E = ()>: Sized {
    /// The outcome that the production logic is bound to.
    spec fn init_spec() -> Result<T, E>;

    /// Produce the value, or fail with a typed error.
    fn init() -> (r: Result<T, E>)
        ensures
            r == Self::init_spec(),
    ;
}

impl LazyInit<()> for () {
    open spec fn init_spec() -> Result<(), ()> {
        Ok(())
    }

    fn init() -> (r: Result<(), ()>) {
        Ok(())
    }
}

/// A cell that produces its value on first demand and caches it.
pub struct Lazy<T, E = ()> {
    state: State<T>,
    error: PhantomData<E>,
}

impl<T, E> View for Lazy<T, E> {
    type V = StateView<T>;

    closed spec fn view(&self) -> StateView<T> {
        match self.state {
            State::Unevaluated => StateView::Unevaluated,
            State::InProgress => StateView::InProgress,
            State::Evaluated(v) => StateView::Evaluated(v),
        }
    }
}

impl<T, E> Lazy<T, E> {
    /// Create a new cell with no value and no computation started.
    pub fn new() -> (r: Lazy<T, E>)
        ensures
            r@ == StateView::<T>::Unevaluated,
    {
        Lazy { state: State::Unevaluated, error: PhantomData }
    }

    /// Whether an evaluation of this cell is underway (or a failed one left
    /// it stuck). While this holds, [`Lazy::get`], [`Lazy::get_mut`] and
    /// [`Lazy::set`] may not be called.
    pub fn is_in_progress(&self) -> (r: bool)
        ensures
            r == (self@ is InProgress),
    {
        match &self.state {
            State::InProgress => true,
            _ => false,
        }
    }

    /// Inject a value directly, bypassing the initializer. Overwrites a
    /// previously evaluated value silently: last write wins.
    ///
    /// May not be called while an evaluation of this cell is underway;
    /// injecting a value mid-computation would race with the evaluation that
    /// is about to store its own result.
    pub fn set(&mut self, value: T)
        requires
            !(old(self)@ is InProgress),
        ensures
            final(self)@ == StateView::Evaluated(value),
    {
        self.state = State::Evaluated(value);
    }

    /// Return a reference to the value if the cell has been evaluated, and
    /// `None` otherwise. Never triggers a computation.
    pub fn get_maybe(&self) -> (r: Option<&T>)
        ensures
            match self@ {
                StateView::Evaluated(v) => r matches Some(x) && *x == v,
                _ => r is None,
            },
    {
        match &self.state {
            State::Evaluated(v) => Some(v),
            _ => None,
        }
    }

    /// Return a mutable reference to the value if the cell has been
    /// evaluated, and `None` otherwise. Never triggers a computation.
    pub fn get_maybe_mut(&mut self) -> (r: Option<&mut T>)
        ensures
            old(self)@ matches StateView::Evaluated(v) ==> (
                r matches Some(x) && *x == v
                    && final(self)@ == StateView::Evaluated(*final(x))
            ),
            !(old(self)@ is Evaluated) ==> r is None && final(self)@ == old(self)@,
    {
        match &mut self.state {
            State::Evaluated(v) => Some(v),
            _ => None,
        }
    }
}

/// The state a cell moves to when a value is demanded of it, given the
/// outcome `init` its initializer is bound to. An evaluated cell stays as it
/// is; an unevaluated cell evaluates to the initializer's value, or is left
/// marked in progress when the initializer fails. Demanding a value of a
/// cell already in progress is forbidden, so that case never reaches this
/// function; it is mapped to itself.
pub open spec fn step_state<T, E>(s: StateView<T>, init: Result<T, E>) -> StateView<T> {
    match s {
        StateView::Unevaluated => match init {
            Ok(v) => StateView::Evaluated(v),
            Err(_) => StateView::InProgress,
        },
        StateView::InProgress => StateView::InProgress,
        StateView::Evaluated(v) => StateView::Evaluated(v),
    }
}

/// The outcome a cell hands back when a value is demanded of it, given the
/// outcome `init` its initializer is bound to. An evaluated cell hands back
/// its cached value without consulting the initializer; an unevaluated cell
/// hands back whatever the initializer produced. As in [`step_state`], the
/// in-progress case is forbidden and never reaches this function.
pub open spec fn step_result<T, E>(s: StateView<T>, init: Result<T, E>) -> Result<T, E> {
    match s {
        StateView::Unevaluated => init,
        StateView::InProgress => init,
        StateView::Evaluated(v) => Ok(v),
    }
}

impl<T: LazyInit<T, E>, E> Lazy<T, E> {
    fn evaluate(&mut self) -> (r: Result<(), E>)
        requires
            !(old(self)@ is InProgress),
        ensures
            final(self)@ == step_state(old(self)@, T::init_spec()),
            match step_result(old(self)@, T::init_spec()) {
                Ok(_) => r is Ok,
                Err(e) => r matches Err(err) && err == e,
            },
    {
        if let State::Evaluated(_) = &self.state {
            return Ok(());
        }
        self.state = State::InProgress;
        match T::init() {
            Ok(v) => {
                self.state = State::Evaluated(v);
                Ok(())
            },
            Err(e) => Err(e),
        }
    }

    /// Evaluate the cell if no value has been produced yet, and return a
    /// reference to the cached value, or the initializer's error unchanged.
    ///
    /// An evaluated cell hands back its existing value without running the
    /// initializer again. When the initializer fails, the cell is left
    /// marked in progress — it is not rolled back — so a later demand on the
    /// same cell is forbidden, exactly as a reentrant one is; test with
    /// [`Lazy::is_in_progress`] before retrying through a fresh cell.
    pub fn get(&mut self) -> (r: Result<&T, E>)
        requires
            !(old(self)@ is InProgress),
        ensures
            final(self)@ == step_state(old(self)@, T::init_spec()),
            match step_result(old(self)@, T::init_spec()) {
                Ok(v) => r matches Ok(x) && *x == v,
                Err(e) => r matches Err(err) && err == e,
            },
    {
        match self.evaluate() {
            Ok(()) => {},
            Err(e) => {
                return Err(e);
            },
        }
        match &self.state {
            State::Evaluated(v) => Ok(v),
            _ => vstd::pervasive::unreached(),
        }
    }

    /// Evaluate the cell if no value has been produced yet, and return a
    /// mutable reference to the cached value, or the initializer's error
    /// unchanged. Semantics as in [`Lazy::get`], with exclusive access.
    pub fn get_mut(&mut self) -> (r: Result<&mut T, E>)
        requires
            !(old(self)@ is InProgress),
        ensures
            match step_result(old(self)@, T::init_spec()) {
                Ok(v) => (
                    r matches Ok(x) && *x == v
                        && final(self)@ == StateView::Evaluated(*final(x))
                ),
                Err(e) => (
                    r matches Err(err) && err == e
                        && final(self)@ == step_state(old(self)@, T::init_spec())
                ),
            },
    {
        match self.evaluate() {
            Ok(()) => {},
            Err(e) => {
                return Err(e);
            },
        }
        match &mut self.state {
            State::Evaluated(v) => Ok(v),
            _ => vstd::pervasive::unreached(),
        }
    }
}

/// The state a cell is in after a value has been demanded of it `n` times,
/// starting from state `s`, with an initializer bound to the outcome `init`.
pub open spec fn step_state_n<T, E>(s: StateView<T>, init: Result<T, E>, n: nat) -> StateView<T>
    decreases n,
{
    if n == 0 {
        s
    } else {
        step_state(step_state_n(s, init, (n - 1) as nat), init)
    }
}

/// Law (idempotence): when the initializer succeeds with `v`, demanding the
/// value of a fresh cell any number `n >= 1` of times leaves it evaluated to
/// exactly `v`, and every one of those demands, the first included, hands
/// back `Ok(v)`.
pub proof fn lemma_get_idempotent<T, E>(init: Result<T, E>, v: T, n: nat)
    requires
        init == Ok::<T, E>(v),
        n >= 1,
    ensures
        step_state_n(StateView::Unevaluated, init, n) == StateView::<T>::Evaluated(v),
        step_result(step_state_n(StateView::Unevaluated, init, (n - 1) as nat), init)
            == Ok::<T, E>(v),
    decreases n,
{
    if n > 1 {
        lemma_get_idempotent(init, v, (n - 1) as nat);
    }
}

/// Law (an evaluated cell ignores the initializer): once a cell holds a
/// value — whether its initializer produced it or [`Lazy::set`] injected it —
/// a demand hands back exactly that value and leaves the cell as it is, for
/// every outcome the initializer may be bound to. So the initializer runs at
/// most once in a cell's life, and a value injected over an earlier one is
/// what every later demand observes.
pub proof fn lemma_evaluated_ignores_initializer<T, E>(v: T, init: Result<T, E>)
    ensures
        step_state(StateView::Evaluated(v), init) == StateView::<T>::Evaluated(v),
        step_result(StateView::Evaluated(v), init) == Ok::<T, E>(v),
{
}

/// Law (error propagation): when the initializer fails with `e`, the first
/// demand on a fresh cell hands back exactly `Err(e)`, unchanged, and leaves
/// the cell marked in progress rather than rolling it back.
pub proof fn lemma_error_propagation<T, E>(init: Result<T, E>, e: E)
    requires
        init == Err::<T, E>(e),
    ensures
        step_result(StateView::<T>::Unevaluated, init) == Err::<T, E>(e),
        step_state(StateView::<T>::Unevaluated, init) == StateView::<T>::InProgress,
{
}

impl<T, E> Default for Lazy<T, E> {
    /// A fresh cell, as [`Lazy::new`] makes it.
    fn default() -> (r: Lazy<T, E>)
        ensures
            r@ == StateView::<T>::Unevaluated,
    {
        Lazy::new()
    }
}

} // verus!
