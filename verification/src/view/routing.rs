//! Where a message goes inside a view: the id path of a message names the child views
//! on its way, one id per level.
use vstd::prelude::*;

use crate::id::Id;

verus! {

/// Where a view that wraps one child view and one event handler sends a message.
#[derive(Clone, Copy, Debug, PartialEq, Eq, Structural)]
pub enum Route {
    /// To the child view, with the rest of the path.
    Child,
    /// To the event handler, with the rest of the path.
    Handler,
    /// The message is for this view itself: to the event handler, with an empty path.
    Direct,
    /// The path names no part of this view: the message is stale.
    Stale,
}

/// The route of a message with `id_path` through a view whose child has the id
/// `child_id` and whose event handler has the id `handler_id`.
pub open spec fn event_view_route(id_path: Seq<Id>, child_id: Id, handler_id: Id) -> Route {
    if id_path.len() == 0 {
        Route::Direct
    } else if id_path[0] == child_id {
        Route::Child
    } else if id_path[0] == handler_id {
        Route::Handler
    } else {
        Route::Stale
    }
}

/// Chooses the route of a message through a view with one child and one event handler:
/// the child when the path starts with its id, else the handler when the path starts
/// with the handler's id, the handler directly when the path is empty, and nowhere else.
pub fn route_event_view(id_path: &[Id], child_id: Id, handler_id: Id) -> (r: Route)
    ensures
        r == event_view_route(id_path@, child_id, handler_id),
{
    if id_path.len() == 0 {
        Route::Direct
    } else if id_path[0] == child_id {
        Route::Child
    } else if id_path[0] == handler_id {
        Route::Handler
    } else {
        Route::Stale
    }
}

/// Which of two parts, with the ids `first_id` and `second_id`, a message with
/// `id_path` is for: `Some(true)` for the first, `Some(false)` for the second, `None`
/// when the path is empty or starts with neither id.
pub fn route_pair(id_path: &[Id], first_id: Id, second_id: Id) -> (r: Option<bool>)
    ensures
        r == (if id_path@.len() == 0 {
            None::<bool>
        } else if id_path@[0] == first_id {
            Some(true)
        } else if id_path@[0] == second_id {
            Some(false)
        } else {
            None::<bool>
        }),
{
    if id_path.len() == 0 {
        None
    } else if id_path[0] == first_id {
        Some(true)
    } else if id_path[0] == second_id {
        Some(false)
    } else {
        None
    }
}

/// Whether a message with `id_path` is for the child with the id `child_id`: the path
/// starts with that id.
pub fn is_for_child(id_path: &[Id], child_id: Id) -> (r: bool)
    ensures
        r == (id_path@.len() > 0 && id_path@[0] == child_id),
{
    id_path.len() > 0 && id_path[0] == child_id
}

/// The path that remains once the first id has been followed.
pub fn rest_of_path(id_path: &[Id]) -> (r: &[Id])
    requires
        id_path@.len() > 0,
    ensures
        r@ == id_path@.subrange(1, id_path@.len() as int),
{
    vstd::slice::slice_subrange(id_path, 1, id_path.len())
}

} // verus!
