use crate::action::IsRouteAction;
use crate::action::RouteAction;
use crate::router::fault;
use crate::router::fault_of;
use crate::router::Fault;
use crate::router::RouterRequest;
use crate::router::RouterResponse;
use reactive_state::middleware::ReduceMiddlewareResult;
use reactive_state::Store;
use vstd::prelude::*;

verus! {

/// What the next stage of the store's pipeline is handed in place of the
/// incoming action.
#[derive(Debug, PartialEq)]
pub enum Forward<SR> {
    /// The incoming action as it came, be it an action or none.
    Unchanged,
    /// No action: the incoming one goes no further.
    Suppressed,
    /// This route action, made into the host's action type.
    Replaced(RouteAction<SR>),
}

/// How the interception of one incoming action begins.
#[derive(Debug, PartialEq)]
pub enum Interception<'a, SR> {
    /// The router is to be asked this; `settle` tells what to forward then.
    Ask(RouterRequest<'a, SR>),
    /// The router is not involved: this is forwarded.
    Done(Forward<SR>),
}

/// How the interception of one incoming action ends.
#[derive(Debug, PartialEq)]
pub struct Outcome<SR> {
    /// What the next stage is handed.
    pub forward: Forward<SR>,
    /// The fault to report, if the request was dropped.
    pub fault: Option<Fault>,
}

/// The first half of the interception table: what each incoming route action
/// asks of the router. `None` stands for no action and for an action that is
/// no route action.
pub open spec fn interception<'a, SR>(route_action: Option<&'a RouteAction<SR>>) -> Interception<
    'a,
    SR,
> {
    match route_action {
        Some(RouteAction::Back) => Interception::Ask(RouterRequest::Back),
        Some(RouteAction::ChangeRoute(route)) => Interception::Ask(RouterRequest::SetRoute(route)),
        Some(RouteAction::PollBrowserRoute) => Interception::Ask(RouterRequest::GetRoute),
        Some(RouteAction::BrowserChangeRoute(_)) => Interception::Done(Forward::Unchanged),
        None => Interception::Done(Forward::Unchanged),
    }
}

/// The second half of the interception table: what is forwarded once the
/// router has answered.
///
/// Going back suppresses the action whatever came of it. A poll is replaced by
/// the report of the route that the router told, and left as it is where the
/// router told none. Everything else passes unchanged.
pub open spec fn forward_of<SR>(request: RouterRequest<SR>, response: RouterResponse<SR>) -> Forward<SR> {
    match request {
        RouterRequest::Back => Forward::Suppressed,
        RouterRequest::GetRoute => match response {
            RouterResponse::Route(route) => Forward::Replaced(RouteAction::BrowserChangeRoute(route)),
            _ => Forward::Unchanged,
        },
        _ => Forward::Unchanged,
    }
}

/// Begins the interception of a route action.
pub fn plan<'a, SR>(route_action: Option<&'a RouteAction<SR>>) -> (step: Interception<'a, SR>)
    ensures
        step == interception(route_action),
{
    match route_action {
        Some(RouteAction::Back) => Interception::Ask(RouterRequest::Back),
        Some(RouteAction::ChangeRoute(route)) => Interception::Ask(RouterRequest::SetRoute(route)),
        Some(RouteAction::PollBrowserRoute) => Interception::Ask(RouterRequest::GetRoute),
        _ => Interception::Done(Forward::Unchanged),
    }
}

/// Whether `step` begins the interception of the host's `action`: it is what
/// the table gives for a route action that `action` can tell of itself, and
/// for none where there is no action.
pub open spec fn intercepted<'a, SR, Action>(
    action: Option<&'a Action>,
    step: Interception<'a, SR>,
) -> bool where Action: IsRouteAction<SR> {
    match action {
        Some(incoming) => exists|route_action: Option<&'a RouteAction<SR>>|
            call_ensures(
                <Action as IsRouteAction<SR>>::route_action,
                (incoming,),
                route_action,
            ) && step == interception(route_action),
        None => step == interception::<SR>(None),
    }
}

/// Begins the interception of an incoming action of the host: the action is
/// asked for its route action, and that one decides.
pub fn intercept<'a, SR, Action>(action: Option<&'a Action>) -> (step: Interception<'a, SR>) where
    Action: IsRouteAction<SR>,

    ensures
        intercepted(action, step),
{
    match action {
        Some(incoming) => plan(incoming.route_action()),
        None => plan(None),
    }
}

/// Ends the interception: what to forward and which fault to report, now that
/// `request` was answered with `response`.
pub fn settle<SR>(request: &RouterRequest<SR>, response: RouterResponse<SR>) -> (outcome: Outcome<SR>)
    ensures
        outcome.forward == forward_of(*request, response),
        outcome.fault == fault_of(*request, response),
{
    let dropped = fault(request, &response);
    let forward = match request {
        RouterRequest::Back => Forward::Suppressed,
        RouterRequest::GetRoute => match response {
            RouterResponse::Route(route) => Forward::Replaced(RouteAction::BrowserChangeRoute(route)),
            _ => Forward::Unchanged,
        },
        _ => Forward::Unchanged,
    };
    Outcome { forward, fault: dropped }
}

/// Whether the next stage `reduce` takes what `forward` hands it in place of
/// `incoming`. A stage that takes every action and none, as the store's
/// pipeline does, takes all of it.
pub open spec fn deliverable<SR, State, Action, Event, Effect, F>(
    reduce: F,
    store: &Store<State, Action, Event, Effect>,
    incoming: Option<&Action>,
    forward: Forward<SR>,
) -> bool where
    Action: IsRouteAction<SR>,
    F: FnOnce(&Store<State, Action, Event, Effect>, Option<&Action>) -> ReduceMiddlewareResult<
        Event,
        Effect,
    >,
 {
    match forward {
        Forward::Unchanged => call_requires(reduce, (store, incoming)),
        Forward::Suppressed => call_requires(reduce, (store, None)),
        Forward::Replaced(route_action) => forall|replacement: Action|
            call_ensures(<Action as From<RouteAction<SR>>>::from, (route_action,), replacement)
                ==> call_requires(reduce, (store, Some(&replacement))),
    }
}

/// Whether `result` is what the next stage `reduce` can return when it is
/// handed `forward` in place of `incoming`.
pub open spec fn delivered<SR, State, Action, Event, Effect, F>(
    reduce: F,
    store: &Store<State, Action, Event, Effect>,
    incoming: Option<&Action>,
    forward: Forward<SR>,
    result: ReduceMiddlewareResult<Event, Effect>,
) -> bool where
    Action: IsRouteAction<SR>,
    F: FnOnce(&Store<State, Action, Event, Effect>, Option<&Action>) -> ReduceMiddlewareResult<
        Event,
        Effect,
    >,
 {
    match forward {
        Forward::Unchanged => call_ensures(reduce, (store, incoming), result),
        Forward::Suppressed => call_ensures(reduce, (store, None), result),
        Forward::Replaced(route_action) => exists|replacement: Action|
            call_ensures(<Action as From<RouteAction<SR>>>::from, (route_action,), replacement)
                && call_ensures(reduce, (store, Some(&replacement)), result),
    }
}

/// Hands `forward` to the next stage in place of `incoming`, and returns what
/// the next stage returns.
///
/// The next stage is called once, and must take what it is handed.
pub fn deliver<SR, State, Action, Event, Effect, F>(
    store: &Store<State, Action, Event, Effect>,
    incoming: Option<&Action>,
    forward: Forward<SR>,
    reduce: F,
) -> (result: ReduceMiddlewareResult<Event, Effect>) where
    Action: IsRouteAction<SR>,
    F: FnOnce(&Store<State, Action, Event, Effect>, Option<&Action>) -> ReduceMiddlewareResult<
        Event,
        Effect,
    >,

    requires
        deliverable(reduce, store, incoming, forward),
    ensures
        delivered(reduce, store, incoming, forward, result),
{
    match forward {
        Forward::Unchanged => reduce(store, incoming),
        Forward::Suppressed => reduce(store, None),
        Forward::Replaced(route_action) => {
            let replacement = Action::from(route_action);
            reduce(store, Some(&replacement))
        },
    }
}

/// Whether `result` and `fault` are what `on_reduce` can return for `action`:
/// the interception begins as the action's route action says; where the
/// router is to be asked, `ask` is called with that request and its answer
/// decides what is forwarded and which fault is reported; and `result` is what
/// the next stage returns for what is forwarded.
pub open spec fn reduced<'a, SR: 'a, State, Action, Event, Effect, A, F>(
    ask: A,
    store: &Store<State, Action, Event, Effect>,
    action: Option<&'a Action>,
    reduce: F,
    result: ReduceMiddlewareResult<Event, Effect>,
    fault: Option<Fault>,
) -> bool where
    Action: IsRouteAction<SR>,
    A: FnOnce(&RouterRequest<'a, SR>) -> RouterResponse<SR>,
    F: FnOnce(&Store<State, Action, Event, Effect>, Option<&Action>) -> ReduceMiddlewareResult<
        Event,
        Effect,
    >,
 {
    exists|step: Interception<'a, SR>|
        intercepted(action, step) && match step {
            Interception::Done(forward) => fault is None && delivered(
                reduce,
                store,
                action,
                forward,
                result,
            ),
            Interception::Ask(request) => exists|response: RouterResponse<SR>|
                call_ensures(ask, (&request,), response) && fault == fault_of(request, response)
                    && delivered(reduce, store, action, forward_of(request, response), result),
        }
}

/// Intercepts `action` on its way to the next stage `reduce`.
///
/// `ask` is the host's access to the router: it tries the guard once, makes
/// the requested call, and answers. It is called at most once, and only for
/// a request to go to a route, a request to go back, and a poll. The next
/// stage is called once. Returned are the next stage's result and the fault
/// for the host to report, if the request was dropped.
pub fn on_reduce<'a, SR: 'a, State, Action, Event, Effect, A, F>(
    ask: A,
    store: &Store<State, Action, Event, Effect>,
    action: Option<&'a Action>,
    reduce: F,
) -> (result: (ReduceMiddlewareResult<Event, Effect>, Option<Fault>)) where
    Action: IsRouteAction<SR>,
    A: FnOnce(&RouterRequest<'a, SR>) -> RouterResponse<SR>,
    F: FnOnce(&Store<State, Action, Event, Effect>, Option<&Action>) -> ReduceMiddlewareResult<
        Event,
        Effect,
    >,

    requires
        forall|request: &RouterRequest<'a, SR>| call_requires(ask, (request,)),
        forall|forward: Forward<SR>| deliverable(reduce, store, action, forward),
    ensures
        reduced(ask, store, action, reduce, result.0, result.1),
{
    match intercept(action) {
        Interception::Done(forward) => (deliver(store, action, forward, reduce), None),
        Interception::Ask(request) => {
            let response = ask(&request);
            let outcome = settle(&request, response);
            (deliver(store, action, outcome.forward, reduce), outcome.fault)
        },
    }
}

} // verus!
