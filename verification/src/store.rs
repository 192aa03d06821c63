use crate::action::IsRouteAction;
use crate::action::RouteAction;
use reactive_state::middleware::ReduceMiddlewareResult;
use reactive_state::Store;
use std::hash::Hash;
use vstd::prelude::*;

verus! {

/// `reactive_state::Store`, the state container. Nothing inside it is visible
/// here: it is handed on to the next stage and dispatched to.
#[verifier::external_type_specification]
#[verifier::external_body]
#[verifier::reject_recursive_types(State)]
#[verifier::reject_recursive_types(Action)]
#[verifier::reject_recursive_types(Event)]
#[verifier::reject_recursive_types(Effect)]
pub struct ExStore<State, Action, Event, Effect>(Store<State, Action, Event, Effect>);

/// `reactive_state::middleware::ReduceMiddlewareResult`, what a stage of the
/// pipeline returns. It is handed back as it came.
#[verifier::external_type_specification]
#[verifier::external_body]
#[verifier::reject_recursive_types(Event)]
#[verifier::reject_recursive_types(Effect)]
pub struct ExReduceMiddlewareResult<Event, Effect>(ReduceMiddlewareResult<Event, Effect>);

/// `Store::dispatch`: the action is made into the store's action type and
/// queued; unless a dispatch is under way already, the queue is then run
/// through the middleware, the reducer and the listeners. All of that happens
/// inside the store, so nothing is claimed here.
#[verifier::external_body]
fn dispatch<State, Action, Event, Effect, A>(
    store: &Store<State, Action, Event, Effect>,
    action: A,
) where Event: Clone + Hash + Eq, A: Into<Action> {
    store.dispatch(action)
}

/// The action by which a navigation that the router reports reaches the
/// store.
pub fn reported<SR>(route: SR) -> (action: RouteAction<SR>)
    ensures
        action == RouteAction::BrowserChangeRoute(route),
{
    RouteAction::BrowserChangeRoute(route)
}

/// The action by which the host asks for a navigation: a `ChangeRoute` of
/// what `route` converts into.
pub fn requested<SR, R: Into<SR>>(route: R) -> (action: RouteAction<SR>)
    ensures
        action matches RouteAction::ChangeRoute(to) && call_ensures(
            <R as Into<SR>>::into,
            (route,),
            to,
        ),
{
    RouteAction::ChangeRoute(route.into())
}

/// What the router's callback does with the route that the router is at now:
/// it dispatches one `BrowserChangeRoute` of that route to the store.
pub fn route_changed<SR, State, Action, Event, Effect>(
    store: &Store<State, Action, Event, Effect>,
    route: SR,
) where Action: IsRouteAction<SR>, Event: Clone + Hash + Eq {
    dispatch(store, reported(route))
}

/// A store that can be asked to navigate.
pub trait RouteStore<SR> {
    /// Dispatches the `ChangeRoute` that `requested` makes of `route`.
    fn change_route<R: Into<SR>>(&self, route: R);
}

impl<SR, State, Action, Event, Effect> RouteStore<SR> for Store<State, Action, Event, Effect> where
    Action: IsRouteAction<SR>,
    Event: Clone + Hash + Eq,
 {
    fn change_route<R: Into<SR>>(&self, route: R) {
        dispatch(self, requested::<SR, R>(route))
    }
}

} // verus!
