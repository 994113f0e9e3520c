//! Local state for views: state that lives beside the application state and that the
//! view keeps from one rebuild to the next.
use vstd::prelude::*;

use std::sync::Arc;

verus! {

/// The "use_state" pattern: `f_init` creates the local state when the view is first
/// built, and `f` makes the view from that state on every build and rebuild.
pub struct UseState<FInit, F> {
    pub f_init: FInit,
    pub f: F,
}

impl<FInit, F> UseState<FInit, F> {
    /// The view that initialises its local state with `f_init` and makes its content
    /// with `f`.
    pub fn new(f_init: FInit, f: F) -> (r: Self)
        ensures
            r.f_init == f_init,
            r.f == f,
    {
        UseState { f_init, f }
    }
}

/// Injects local state into the view that `f` returns; the initial state comes from
/// `f_init`, called when the view is first built.
pub fn use_state<FInit, F>(f_init: FInit, f: F) -> (r: UseState<FInit, F>)
    ensures
        r.f_init == f_init,
        r.f == f,
{
    UseState::new(f_init, f)
}

/// A view `view` composed with local state: `init` creates the state, and
/// `view_factory` makes the outer view from a handle on `view` and the state.
pub struct WithLocalState<FInit, F, Vi> {
    pub init: FInit,
    pub view: Arc<Vi>,
    pub view_factory: F,
}

/// Composes a view with local state, which the view factory gets beside a handle on the
/// view.
pub trait WithState<Vi>: Into<Arc<Vi>> {
    /// Composes the view with local state that `init` initialises; `view_factory` makes
    /// the view that is shown, and the view itself, converted into an `Arc`, is kept.
    fn with_state<FInit, F>(self, init: FInit, view_factory: F) -> (r: WithLocalState<
        FInit,
        F,
        Vi,
    >)
        ensures
            r.init == init,
            r.view_factory == view_factory,
            call_ensures(Self::into, (self,), r.view),
    {
        WithLocalState { init, view: self.into(), view_factory }
    }
}

impl<Vi, V: Into<Arc<Vi>>> WithState<Vi> for V {
}

} // verus!
