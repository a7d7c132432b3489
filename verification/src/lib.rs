//! A verified scheduling core for a heat pump that is driven by replaying
//! its remote-control menu over a socket: menu-tree navigation, the text
//! protocol's message building and screen parsing, the packed weekly-schedule
//! encoding, the disinfection-desirability rules, and the shared jitter that
//! desynchronizes a fleet of identical planners.

pub mod clock;
pub mod decision;
pub mod gestures;
pub mod jitter;
pub mod messages;
pub mod navigation;
pub mod plan;
pub mod prices;
pub mod schedule;
pub mod screen;
pub mod session;
pub mod temperature;
pub mod xml;

use vstd::prelude::*;

verus! {

/// Errors that a planner run can hit, mirroring the failure taxonomy of the
/// device protocol and the scheduling rules.
#[derive(Debug, Clone, PartialEq, Eq)]
pub enum PlannerError {
    /// The socket could not be opened or used in the state asked for.
    ConnectionFailure,
    /// A navigation path segment had no matching child; carries the segment.
    PathNotFound(String),
    /// A named field was absent from a screen listing; carries the field name.
    FieldNotFound(String),
    /// A response arrived malformed or a value could not be read.
    ProtocolViolation,
    /// A protocol operation was attempted outside a logged-in session.
    NotLoggedIn,
    /// The connection closed before a text response arrived.
    NoResponse,
    /// The configured disinfection hour bounds are inconsistent.
    InvalidConfig,
}

/// The views of a sequence of strings.
pub open spec fn seq_views(s: Seq<String>) -> Seq<Seq<char>> {
    Seq::new(s.len(), |i: int| s[i]@)
}

} // verus!
