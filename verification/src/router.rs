use vstd::prelude::*;

verus! {

/// One call that the middleware wants made on the router.
///
/// The router lives behind a guard that grants exclusive access to one caller
/// at a time. The host makes the call: it tries the guard once, without
/// waiting, makes the call if access was granted, and answers with a
/// `RouterResponse`.
#[derive(Debug, PartialEq)]
pub enum RouterRequest<'a, SR> {
    /// Register the callback through which the router reports its navigations.
    RegisterCallback,
    /// Go to this route.
    SetRoute(&'a SR),
    /// Go back one entry in the history.
    Back,
    /// Tell the current route.
    GetRoute,
}

/// What came of one `RouterRequest`.
#[derive(Debug, PartialEq)]
pub enum RouterResponse<SR> {
    /// The guard was held already: the call was not made.
    Busy,
    /// The callback was registered, or the route was set.
    Done,
    /// The router went back: the route it arrived at, or `None` where it had
    /// no history to go back in.
    WentBack(Option<SR>),
    /// The router's current route.
    Route(SR),
}

/// A request that was dropped because the router's guard was held.
///
/// A fault is never an error of the caller's: the request is lost, the host
/// reports the fault, and everything goes on.
#[derive(Debug, PartialEq, Eq, Clone, Copy)]
pub enum Fault {
    /// The callback was not registered: the router will report no navigation.
    CallbackNotRegistered,
    /// The router was not told to go to the route.
    RouteNotSet,
    /// The router was not told to go back.
    HistoryNotPopped,
    /// The router's current route was not read.
    RouteNotRead,
}

impl<'a, SR> RouterRequest<'a, SR> {
    /// The fault that is reported where this request is dropped.
    pub open spec fn dropped(self) -> Fault {
        match self {
            RouterRequest::RegisterCallback => Fault::CallbackNotRegistered,
            RouterRequest::SetRoute(_) => Fault::RouteNotSet,
            RouterRequest::Back => Fault::HistoryNotPopped,
            RouterRequest::GetRoute => Fault::RouteNotRead,
        }
    }
}

/// The fault to report after a request: one exactly where the guard was held.
pub open spec fn fault_of<SR>(request: RouterRequest<SR>, response: RouterResponse<SR>) -> Option<Fault> {
    if response is Busy {
        Some(request.dropped())
    } else {
        None
    }
}

/// What going back returns: the route that the router arrived at, and `None`
/// both where it had no history and where it was not reached at all.
pub open spec fn back_of<SR>(response: RouterResponse<SR>) -> Option<SR> {
    match response {
        RouterResponse::WentBack(route) => route,
        _ => None,
    }
}

/// Tells which fault, if any, is to be reported after `request` was answered
/// with `response`.
pub fn fault<SR>(request: &RouterRequest<SR>, response: &RouterResponse<SR>) -> (fault: Option<Fault>)
    ensures
        fault == fault_of(*request, *response),
{
    match response {
        RouterResponse::Busy => Some(
            match request {
                RouterRequest::RegisterCallback => Fault::CallbackNotRegistered,
                RouterRequest::SetRoute(_) => Fault::RouteNotSet,
                RouterRequest::Back => Fault::HistoryNotPopped,
                RouterRequest::GetRoute => Fault::RouteNotRead,
            },
        ),
        _ => None,
    }
}

/// The result of going back, from the answer to a `Back` request.
pub fn back<SR>(response: RouterResponse<SR>) -> (route: Option<SR>)
    ensures
        route == back_of(response),
{
    match response {
        RouterResponse::WentBack(route) => route,
        _ => None,
    }
}

} // verus!
