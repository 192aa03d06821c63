use crate::action::IsRouteAction;
use crate::action::RouteAction;
use crate::middleware::forward_of;
use crate::middleware::interception;
use crate::middleware::reduced;
use crate::middleware::Forward;
use crate::router::back_of;
use crate::router::fault_of;
use crate::router::Fault;
use crate::router::RouterRequest;
use crate::router::RouterResponse;
use reactive_state::middleware::ReduceMiddlewareResult;
use reactive_state::Store;
use vstd::prelude::*;

verus! {

/// Whether the host's `action` holds exactly `route_action`: whenever it is
/// asked for its route action, that is what it tells.
pub open spec fn holds<'a, SR, Action>(
    action: &'a Action,
    route_action: Option<&'a RouteAction<SR>>,
) -> bool where Action: IsRouteAction<SR> {
    forall|told: Option<&'a RouteAction<SR>>|
        call_ensures(<Action as IsRouteAction<SR>>::route_action, (action,), told) ==> told
            == route_action
}

/// Whether the guard is held: whatever `ask` is asked, it answers `Busy`.
pub open spec fn guard_held<'a, SR, A>(ask: A) -> bool where
    A: FnOnce(&RouterRequest<'a, SR>) -> RouterResponse<SR>,
 {
    forall|request: &RouterRequest<'a, SR>, response: RouterResponse<SR>|
        call_ensures(ask, (request,), response) ==> response is Busy
}

/// A request to go to a route has the router asked to set exactly that route,
/// and reaches the next stage unchanged, whatever the router answers.
pub proof fn change_route_round_trip<'a, SR: 'a, State, Action, Event, Effect, A, F>(
    ask: A,
    store: &Store<State, Action, Event, Effect>,
    action: &'a Action,
    route: &'a SR,
    reduce: F,
    result: ReduceMiddlewareResult<Event, Effect>,
    fault: Option<Fault>,
) where
    Action: IsRouteAction<SR>,
    A: FnOnce(&RouterRequest<'a, SR>) -> RouterResponse<SR>,
    F: FnOnce(&Store<State, Action, Event, Effect>, Option<&Action>) -> ReduceMiddlewareResult<
        Event,
        Effect,
    >,

    requires
        holds(action, Some(&RouteAction::ChangeRoute(*route))),
        reduced(ask, store, Some(action), reduce, result, fault),
    ensures
        exists|response: RouterResponse<SR>|
            call_ensures(ask, (&RouterRequest::SetRoute(route),), response) && fault == fault_of(
                RouterRequest::SetRoute(route),
                response,
            ),
        call_ensures(reduce, (store, Some(action)), result),
{
}

/// A poll has the router asked for its current route. Where the router tells
/// `route`, the next stage gets the report of `route`, made into a host
/// action, in place of the poll. No fault is reported.
pub proof fn poll_resyncs<'a, SR: 'a, State, Action, Event, Effect, A, F>(
    ask: A,
    store: &Store<State, Action, Event, Effect>,
    action: &'a Action,
    route: SR,
    reduce: F,
    result: ReduceMiddlewareResult<Event, Effect>,
    fault: Option<Fault>,
) where
    Action: IsRouteAction<SR>,
    A: FnOnce(&RouterRequest<'a, SR>) -> RouterResponse<SR>,
    F: FnOnce(&Store<State, Action, Event, Effect>, Option<&Action>) -> ReduceMiddlewareResult<
        Event,
        Effect,
    >,

    requires
        holds(action, Some(&RouteAction::<SR>::PollBrowserRoute)),
        forall|response: RouterResponse<SR>|
            call_ensures(ask, (&RouterRequest::<SR>::GetRoute,), response) ==> response
                == RouterResponse::Route(route),
        reduced(ask, store, Some(action), reduce, result, fault),
    ensures
        fault is None,
        exists|replacement: Action|
            call_ensures(
                <Action as From<RouteAction<SR>>>::from,
                (RouteAction::BrowserChangeRoute(route),),
                replacement,
            ) && call_ensures(reduce, (store, Some(&replacement)), result),
{
}

/// Going back has the router asked to go back, and the next stage gets no
/// action: whether the router had a history to go back in, had none, or was
/// not reached.
pub proof fn back_suppresses<'a, SR: 'a, State, Action, Event, Effect, A, F>(
    ask: A,
    store: &Store<State, Action, Event, Effect>,
    action: &'a Action,
    reduce: F,
    result: ReduceMiddlewareResult<Event, Effect>,
    fault: Option<Fault>,
) where
    Action: IsRouteAction<SR>,
    A: FnOnce(&RouterRequest<'a, SR>) -> RouterResponse<SR>,
    F: FnOnce(&Store<State, Action, Event, Effect>, Option<&Action>) -> ReduceMiddlewareResult<
        Event,
        Effect,
    >,

    requires
        holds(action, Some(&RouteAction::<SR>::Back)),
        reduced(ask, store, Some(action), reduce, result, fault),
    ensures
        exists|response: RouterResponse<SR>|
            call_ensures(ask, (&RouterRequest::<SR>::Back,), response) && fault == fault_of(
                RouterRequest::<SR>::Back,
                response,
            ),
        call_ensures(reduce, (store, None), result),
{
}

/// An action that is no route action, and the report of a navigation, reach
/// the next stage unchanged, and no fault is reported.
pub proof fn other_actions_pass<'a, SR: 'a, State, Action, Event, Effect, A, F>(
    ask: A,
    store: &Store<State, Action, Event, Effect>,
    action: &'a Action,
    route_action: Option<&'a RouteAction<SR>>,
    reduce: F,
    result: ReduceMiddlewareResult<Event, Effect>,
    fault: Option<Fault>,
) where
    Action: IsRouteAction<SR>,
    A: FnOnce(&RouterRequest<'a, SR>) -> RouterResponse<SR>,
    F: FnOnce(&Store<State, Action, Event, Effect>, Option<&Action>) -> ReduceMiddlewareResult<
        Event,
        Effect,
    >,

    requires
        holds(action, route_action),
        route_action matches Some(held) ==> held is BrowserChangeRoute,
        reduced(ask, store, Some(action), reduce, result, fault),
    ensures
        fault is None,
        call_ensures(reduce, (store, Some(action)), result),
{
}

/// Where no action comes in, none goes on, and no fault is reported.
pub proof fn no_action_passes<'a, SR: 'a, State, Action, Event, Effect, A, F>(
    ask: A,
    store: &Store<State, Action, Event, Effect>,
    reduce: F,
    result: ReduceMiddlewareResult<Event, Effect>,
    fault: Option<Fault>,
) where
    Action: IsRouteAction<SR>,
    A: FnOnce(&RouterRequest<'a, SR>) -> RouterResponse<SR>,
    F: FnOnce(&Store<State, Action, Event, Effect>, Option<&Action>) -> ReduceMiddlewareResult<
        Event,
        Effect,
    >,

    requires
        reduced(ask, store, None, reduce, result, fault),
    ensures
        fault is None,
        call_ensures(reduce, (store, None), result),
{
}

/// Where the guard is held, every action still reaches the next stage as
/// weakly as its kind allows: going back is suppressed, everything else
/// passes unchanged, the poll too. A fault is reported exactly for what asks
/// something of the router, and it names what was dropped.
pub proof fn held_guard_is_survived<'a, SR: 'a, State, Action, Event, Effect, A, F>(
    ask: A,
    store: &Store<State, Action, Event, Effect>,
    action: &'a Action,
    route_action: Option<&'a RouteAction<SR>>,
    reduce: F,
    result: ReduceMiddlewareResult<Event, Effect>,
    fault: Option<Fault>,
) where
    Action: IsRouteAction<SR>,
    A: FnOnce(&RouterRequest<'a, SR>) -> RouterResponse<SR>,
    F: FnOnce(&Store<State, Action, Event, Effect>, Option<&Action>) -> ReduceMiddlewareResult<
        Event,
        Effect,
    >,

    requires
        holds(action, route_action),
        guard_held(ask),
        reduced(ask, store, Some(action), reduce, result, fault),
    ensures
        route_action matches Some(RouteAction::Back) ==> call_ensures(
            reduce,
            (store, None),
            result,
        ),
        !(route_action matches Some(RouteAction::Back)) ==> call_ensures(
            reduce,
            (store, Some(action)),
            result,
        ),
        fault == match route_action {
            Some(RouteAction::Back) => Some(Fault::HistoryNotPopped),
            Some(RouteAction::ChangeRoute(_)) => Some(Fault::RouteNotSet),
            Some(RouteAction::PollBrowserRoute) => Some(Fault::RouteNotRead),
            _ => None,
        },
{
}

/// The router is asked something only for a request to go to a route, a
/// request to go back, and a poll.
pub proof fn only_commands_reach_the_router<SR>(route_action: Option<&RouteAction<SR>>)
    ensures
        interception(route_action) is Ask <==> (route_action matches Some(action) && (action is Back
            || action is ChangeRoute || action is PollBrowserRoute)),
{
}

/// A request that meets a held guard is dropped with its fault, and the
/// result is the weakest that the request allows: going back is suppressed
/// and returns no route, everything else passes unchanged.
pub proof fn held_guard_degrades<SR>(request: RouterRequest<SR>)
    ensures
        fault_of(request, RouterResponse::Busy) == Some(request.dropped()),
        forward_of(request, RouterResponse::Busy) == (if request is Back {
            Forward::<SR>::Suppressed
        } else {
            Forward::<SR>::Unchanged
        }),
        back_of(RouterResponse::<SR>::Busy) is None,
{
}

/// A fault is reported exactly where the guard was held.
pub proof fn fault_means_held_guard<SR>(request: RouterRequest<SR>, response: RouterResponse<SR>)
    ensures
        fault_of(request, response) is Some <==> response is Busy,
{
}

} // verus!
