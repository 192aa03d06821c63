use std::fmt::Debug;
use vstd::prelude::*;

verus! {

/// A message about navigation, over the host application's route type `SR`.
///
/// An action changes nothing by itself: it asks for a navigation or reports one.
#[derive(Debug, PartialEq)]
pub enum RouteAction<SR> {
    /// Ask the router to leave the current route for the one before it.
    Back,
    /// Ask the router to go to this route.
    ChangeRoute(SR),
    /// Report that the router is at this route.
    BrowserChangeRoute(SR),
    /// Ask for the router's current route, to be reported as a `BrowserChangeRoute`.
    PollBrowserRoute,
}

impl<SR> RouteAction<SR> {
    /// The text of this action, where `route` is the text of the route it carries.
    pub open spec fn text(self, route: Seq<char>) -> Seq<char> {
        match self {
            RouteAction::Back => "Back"@,
            RouteAction::ChangeRoute(_) => "ChangeRoute("@ + route + ")"@,
            RouteAction::BrowserChangeRoute(_) => "BrowserChangeRoute("@ + route + ")"@,
            RouteAction::PollBrowserRoute => "PollBrowserRoute"@,
        }
    }

    /// Writes this action out, with `route` for the route it carries.
    pub fn render(&self, route: &str) -> (text: String)
        ensures
            text@ == self.text(route@),
    {
        match self {
            RouteAction::Back => String::from_str("Back"),
            RouteAction::ChangeRoute(_) => {
                String::from_str("ChangeRoute(").concat(route).concat(")")
            },
            RouteAction::BrowserChangeRoute(_) => {
                String::from_str("BrowserChangeRoute(").concat(route).concat(")")
            },
            RouteAction::PollBrowserRoute => String::from_str("PollBrowserRoute"),
        }
    }

    /// Writes this action out: the variant's name and, in brackets, the route as
    /// its `Debug` impl writes it.
    pub fn to_string(&self) -> (text: String) where SR: Debug
        ensures
            exists|route: Seq<char>| text@ == self.text(route),
    {
        match self {
            RouteAction::ChangeRoute(route) | RouteAction::BrowserChangeRoute(route) => {
                let written = debug_text(route);
                self.render(written.as_str())
            },
            _ => self.render(""),
        }
    }
}

impl<SR: Clone> RouteAction<SR> {
    /// Whether `copy` is the same variant as `self`, with a clone of its route.
    pub open spec fn cloned_as(self, copy: Self) -> bool {
        match (self, copy) {
            (RouteAction::Back, RouteAction::Back) => true,
            (RouteAction::ChangeRoute(route), RouteAction::ChangeRoute(other)) => cloned(
                route,
                other,
            ),
            (
                RouteAction::BrowserChangeRoute(route),
                RouteAction::BrowserChangeRoute(other),
            ) => cloned(route, other),
            (RouteAction::PollBrowserRoute, RouteAction::PollBrowserRoute) => true,
            _ => false,
        }
    }
}

impl<SR: Clone> Clone for RouteAction<SR> {
    fn clone(&self) -> (copy: Self)
        ensures
            self.cloned_as(copy),
    {
        match self {
            RouteAction::Back => RouteAction::Back,
            RouteAction::ChangeRoute(route) => RouteAction::ChangeRoute(route.clone()),
            RouteAction::BrowserChangeRoute(route) => RouteAction::BrowserChangeRoute(
                route.clone(),
            ),
            RouteAction::PollBrowserRoute => RouteAction::PollBrowserRoute,
        }
    }
}

/// `format!` with `{:?}`, that is the value's `Debug::fmt` written into a fresh
/// string. Nothing is claimed of the text: each type writes itself as it likes.
#[verifier::external_body]
fn debug_text<T: Debug>(value: &T) -> (text: String) {
    format!("{:?}", value)
}

/// A host action that may hold a `RouteAction`.
///
/// The host's action type is built from a `RouteAction` by `From`, and tells by
/// `route_action` whether it holds one.
pub trait IsRouteAction<SR>: Clone + From<RouteAction<SR>> {
    /// The route action that this action holds, if it holds one.
    fn route_action(&self) -> Option<&RouteAction<SR>>;
}

/// A host state that knows the current route.
pub trait RouteState<SR> {
    /// The route that the state holds as the current one.
    fn get_route(&self) -> &SR;
}

/// A host event that can say that the route changed.
pub trait RouteEvent<SR>: Sized {
    /// The event that says that the route changed.
    fn route_changed() -> Self;
}

} // verus!
