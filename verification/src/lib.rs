//! Keeps a router and a `reactive_state` store in step.
//!
//! The router is the host application's: it owns the current route and the
//! history, and sits behind a guard that grants exclusive access to one caller
//! at a time. This library decides; the host makes the calls on the router.
//!
//! * `on_reduce` intercepts an action on its way to the reducer. It is handed
//!   the host's access to the router as a function from a `RouterRequest` to
//!   a `RouterResponse`: the host tries the guard once, makes the call, and
//!   answers, with `Busy` where the guard was held.
//! * Its steps can be taken one by one: `intercept` tells whether the router
//!   is to be asked something, `settle` what the next stage is handed
//!   (`Forward`) and which `Fault` is to be reported, and `deliver` hands it
//!   on.
//! * `route_changed` is what the router's callback does: it dispatches the
//!   route that the router reports to the store.
//!
//! A request that meets a held guard is dropped and reported, never waited
//! for and never an error: the library has no function that fails.

pub mod action;
pub mod laws;
pub mod middleware;
pub mod router;
pub mod store;

pub use action::IsRouteAction;
pub use action::RouteAction;
pub use action::RouteEvent;
pub use action::RouteState;
pub use middleware::deliver;
pub use middleware::intercept;
pub use middleware::on_reduce;
pub use middleware::plan;
pub use middleware::settle;
pub use middleware::Forward;
pub use middleware::Interception;
pub use middleware::Outcome;
pub use router::back;
pub use router::fault;
pub use router::Fault;
pub use router::RouterRequest;
pub use router::RouterResponse;
pub use store::reported;
pub use store::requested;
pub use store::route_changed;
pub use store::RouteStore;
