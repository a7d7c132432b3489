use vstd::prelude::*;

use crate::PlannerError;
use crate::messages::{get_message, get_message_spec, login_message_spec};
use crate::navigation::{Navigation, resolve_spec};
use crate::xml::{navigation_view, parse_navigation, parse_navigation_response};

verus! {

/// Where a device session stands: no socket yet, a socket without a login,
/// or a logged-in session that may navigate and issue commands.
#[derive(Debug, Clone, Copy, PartialEq, Eq, Structural)]
pub enum SessionState {
    Disconnected,
    Connected,
    LoggedIn,
}

/// One remote-control session over a device socket. The session owns the
/// menu tree the device sent at login; protocol operations are permitted
/// only once logged in.
pub struct DeviceSession {
    pub state: SessionState,
    pub navigation: Option<Navigation>,
}

impl DeviceSession {
    /// A logged-in session always holds the menu tree it was given.
    pub open spec fn wf(&self) -> bool {
        self.state == SessionState::LoggedIn ==> self.navigation is Some
    }

    /// A fresh session, not yet connected.
    pub fn new() -> (s: Self)
        ensures
            s.state == SessionState::Disconnected,
            s.navigation is None,
            s.wf(),
    {
        DeviceSession { state: SessionState::Disconnected, navigation: None }
    }

    /// Records that the socket has been opened.
    pub fn mark_connected(&mut self) -> (r: Result<(), PlannerError>)
        requires
            old(self).wf(),
        ensures
            (match r {
                Ok(_) => old(self).state == SessionState::Disconnected && final(self).state
                    == SessionState::Connected && final(self).navigation is None,
                Err(e) => e == PlannerError::ConnectionFailure && old(self).state
                    != SessionState::Disconnected && *final(self) == *old(self),
            }),
            final(self).wf(),
    {
        if !matches!(self.state, SessionState::Disconnected) {
            return Err(PlannerError::ConnectionFailure);
        }
        self.state = SessionState::Connected;
        self.navigation = None;
        Ok(())
    }

    /// The login command for this session, available once connected.
    pub fn login_request(&self, code: &str) -> (r: Result<String, PlannerError>)
        ensures
            (match r {
                Ok(m) => self.state == SessionState::Connected && m@ == login_message_spec(code@),
                Err(e) => e == PlannerError::ConnectionFailure && self.state
                    != SessionState::Connected,
            }),
    {
        if !matches!(self.state, SessionState::Connected) {
            return Err(PlannerError::ConnectionFailure);
        }
        Ok(crate::messages::login_message(code))
    }

    /// Takes the device's answer to the login command: a parsed menu tree
    /// moves the session to the logged-in state, anything else is a protocol
    /// violation and leaves the session as it was.
    pub fn complete_login(&mut self, response: &str) -> (r: Result<(), PlannerError>)
        requires
            old(self).wf(),
        ensures
            (match r {
                Ok(_) => {
                    &&& old(self).state == SessionState::Connected
                    &&& final(self).state == SessionState::LoggedIn
                    &&& (match final(self).navigation {
                        Some(nav) => parse_navigation(response@) == Some(navigation_view(nav)),
                        None => false,
                    })
                },
                Err(e) => *final(self) == *old(self) && (if old(self).state
                    != SessionState::Connected {
                    e == PlannerError::ConnectionFailure
                } else {
                    e == PlannerError::ProtocolViolation && parse_navigation(response@) is None
                }),
            }),
            final(self).wf(),
    {
        if !matches!(self.state, SessionState::Connected) {
            return Err(PlannerError::ConnectionFailure);
        }
        match parse_navigation_response(response) {
            Ok(nav) => {
                self.navigation = Some(nav);
                self.state = SessionState::LoggedIn;
                Ok(())
            },
            Err(e) => Err(e),
        }
    }

    /// The screen-fetch command for a menu path, available once logged in:
    /// the path is resolved against the session's menu tree and the command
    /// asks for the resolved item.
    pub fn navigate_request(&self, path: &str) -> (r: Result<String, PlannerError>)
        requires
            self.wf(),
        ensures
            (match r {
                Ok(m) => {
                    &&& self.state == SessionState::LoggedIn
                    &&& self.navigation is Some
                    &&& (match resolve_spec(self.navigation->Some_0.items@, path@) {
                        Ok(id) => m@ == get_message_spec(id),
                        Err(_) => false,
                    })
                },
                Err(e) => (match e {
                    PlannerError::NotLoggedIn => self.state != SessionState::LoggedIn,
                    PlannerError::PathNotFound(seg) => self.state == SessionState::LoggedIn
                        && resolve_spec(self.navigation->Some_0.items@, path@) == Err::<
                        Seq<char>,
                        _,
                    >(seg@),
                    _ => false,
                }),
            }),
    {
        if !matches!(self.state, SessionState::LoggedIn) {
            return Err(PlannerError::NotLoggedIn);
        }
        let nav = match &self.navigation {
            Some(nav) => nav,
            None => {
                return Err(PlannerError::NotLoggedIn);
            },
        };
        match nav.get_navigation_item_id(path) {
            Ok(id) => Ok(get_message(id.as_str())),
            Err(e) => Err(e),
        }
    }

    /// Drops the connection and the menu tree.
    pub fn disconnect(&mut self)
        ensures
            final(self).state == SessionState::Disconnected,
            final(self).navigation is None,
            final(self).wf(),
    {
        self.state = SessionState::Disconnected;
        self.navigation = None;
    }
}

/// One frame received while waiting for a text response.
pub enum Frame {
    Text(String),
    Binary(Vec<u8>),
    Ping(Vec<u8>),
    Pong(Vec<u8>),
    Close,
}

/// What to do with a received frame: hand a text frame to the caller, answer
/// a ping with a pong carrying the same bytes, answer a peer close with a
/// close, or read on.
pub enum FrameAction {
    Deliver(String),
    ReplyPong(Vec<u8>),
    ReplyClose,
    Ignore,
}

/// Decides how the response-wait loop treats one incoming frame: only a text
/// frame satisfies the wait; control frames are answered or ignored and the
/// wait goes on.
pub fn frame_action(f: Frame) -> (r: FrameAction)
    ensures
        (match f {
            Frame::Text(t) => r == FrameAction::Deliver(t),
            Frame::Ping(d) => r == FrameAction::ReplyPong(d),
            Frame::Close => r == FrameAction::ReplyClose,
            Frame::Pong(_) => r == FrameAction::Ignore,
            Frame::Binary(_) => r == FrameAction::Ignore,
        }),
{
    match f {
        Frame::Text(t) => FrameAction::Deliver(t),
        Frame::Ping(d) => FrameAction::ReplyPong(d),
        Frame::Close => FrameAction::ReplyClose,
        Frame::Pong(_) => FrameAction::Ignore,
        Frame::Binary(_) => FrameAction::Ignore,
    }
}

} // verus!
