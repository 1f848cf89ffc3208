//! The manager's first step: to ask for the redirection of the root
//! window's substructure, which the server grants to one client only.

use vstd::prelude::*;

use crate::model::Screen;
use crate::request::{Request, ROOT_EVENT_MASK};

verus! {

/// The status with which the process ends where another window manager is running.
pub const EXIT_WM_RUNNING: i32 = 1;

/// The status with which the process ends after any other failure.
pub const EXIT_FAILURE: i32 = 2;

/// Why a request failed.
#[derive(Debug, Clone, Copy, PartialEq, Eq, Structural)]
pub enum ReplyError {
    /// The server refused the request with an access error.
    Access,
    /// The server refused the request with another error.
    Protocol,
    /// The connection to the server broke.
    Connection,
}

/// Why the manager cannot start.
#[derive(Debug, Clone, Copy, PartialEq, Eq, Structural)]
pub enum StartupError {
    /// Another window manager holds the redirection.
    AnotherWmRunning,
    /// The request for the redirection failed otherwise.
    Failed(ReplyError),
}

/// What the reply `reply` to the redirection request means for the
/// start: an access error tells that another window manager is
/// running; any other failure is handed on.
pub open spec fn access_outcome(reply: Result<(), ReplyError>) -> Result<(), StartupError> {
    match reply {
        Ok(()) => Ok(()),
        Err(ReplyError::Access) => Err(StartupError::AnotherWmRunning),
        Err(error) => Err(StartupError::Failed(error)),
    }
}

/// The request that selects the redirection of the substructure of the
/// root window of `screen`.
pub fn access_request(screen: &Screen) -> (request: Request)
    ensures
        request == (Request::ChangeWindowAttributes {
            window: screen.root,
            event_mask: ROOT_EVENT_MASK,
        }),
{
    Request::ChangeWindowAttributes { window: screen.root, event_mask: ROOT_EVENT_MASK }
}

/// Judges the reply to the request of `access_request`.
pub fn check_access(reply: Result<(), ReplyError>) -> (outcome: Result<(), StartupError>)
    ensures
        outcome == access_outcome(reply),
{
    match reply {
        Ok(()) => Ok(()),
        Err(ReplyError::Access) => Err(StartupError::AnotherWmRunning),
        Err(error) => Err(StartupError::Failed(error)),
    }
}

impl StartupError {
    /// The status with which the process is to end.
    pub fn exit_status(&self) -> (status: i32)
        ensures
            status == match *self {
                StartupError::AnotherWmRunning => EXIT_WM_RUNNING,
                StartupError::Failed(_) => EXIT_FAILURE,
            },
            status != 0,
    {
        match self {
            StartupError::AnotherWmRunning => EXIT_WM_RUNNING,
            StartupError::Failed(_) => EXIT_FAILURE,
        }
    }
}

} // verus!
