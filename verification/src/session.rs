//! One open channel to one trusted application. A session is created from
//! the outcome of the native open-session request, refuses command
//! invocation once it has been closed, and issues exactly one close per
//! successful open.

use vstd::prelude::*;

use crate::context::Context;
use crate::error::{
    spec_kind_from_raw, spec_origin_from_raw, Error, ErrorKind, ErrorOrigin, Result, TEEC_SUCCESS,
};
use crate::operation::Operation;
use crate::parameter::Param;
use crate::uuid::Uuid;

verus! {

pub const TEEC_LOGIN_PUBLIC: u32 = 0x0;
pub const TEEC_LOGIN_USER: u32 = 0x1;
pub const TEEC_LOGIN_GROUP: u32 = 0x2;
pub const TEEC_LOGIN_APPLICATION: u32 = 0x4;
pub const TEEC_LOGIN_USER_APPLICATION: u32 = 0x5;
pub const TEEC_LOGIN_GROUP_APPLICATION: u32 = 0x6;

/// Session login methods.
#[derive(Clone, Copy, Debug, PartialEq, Eq, Structural)]
pub enum ConnectionMethods {
    /// No login data is provided.
    LoginPublic,
    /// Login data about the user running the Client Application process is provided.
    LoginUser,
    /// Login data about the group running the Client Application process is provided.
    LoginGroup,
    /// Login data about the running Client Application itself is provided.
    LoginApplication,
    /// Login data about the user and the running Client Application itself is provided.
    LoginUserApplication,
    /// Login data about the group and the running Client Application itself is provided.
    LoginGroupApplication,
}

/// The fixed table from login method to the ABI integer code; no other
/// values exist.
pub open spec fn spec_login_code(m: ConnectionMethods) -> u32 {
    match m {
        ConnectionMethods::LoginPublic => TEEC_LOGIN_PUBLIC,
        ConnectionMethods::LoginUser => TEEC_LOGIN_USER,
        ConnectionMethods::LoginGroup => TEEC_LOGIN_GROUP,
        ConnectionMethods::LoginApplication => TEEC_LOGIN_APPLICATION,
        ConnectionMethods::LoginUserApplication => TEEC_LOGIN_USER_APPLICATION,
        ConnectionMethods::LoginGroupApplication => TEEC_LOGIN_GROUP_APPLICATION,
    }
}

impl ConnectionMethods {
    /// The ABI integer code of this login method.
    pub fn as_raw(self) -> (r: u32)
        ensures
            r == spec_login_code(self),
    {
        match self {
            ConnectionMethods::LoginPublic => TEEC_LOGIN_PUBLIC,
            ConnectionMethods::LoginUser => TEEC_LOGIN_USER,
            ConnectionMethods::LoginGroup => TEEC_LOGIN_GROUP,
            ConnectionMethods::LoginApplication => TEEC_LOGIN_APPLICATION,
            ConnectionMethods::LoginUserApplication => TEEC_LOGIN_USER_APPLICATION,
            ConnectionMethods::LoginGroupApplication => TEEC_LOGIN_GROUP_APPLICATION,
        }
    }
}

/// What the native open-session request answered: a status code, the origin
/// reported beside it, and the session identifier on success.
#[derive(Clone, Copy, Debug, PartialEq, Eq, Structural)]
pub struct OpenSessionReply {
    pub status: u32,
    pub origin: u32,
    pub session_id: u32,
}

/// What the native invoke-command request answered.
#[derive(Clone, Copy, Debug, PartialEq, Eq, Structural)]
pub struct InvokeCommandReply {
    pub status: u32,
    pub origin: u32,
}

/// Represents a connection between a client application and a trusted
/// application.
pub struct Session {
    session_id: u32,
    open: bool,
}

impl Session {
    pub closed spec fn spec_session_id(&self) -> u32 {
        self.session_id
    }

    /// Whether the session is still open: commands may only be invoked
    /// while this holds, and the one close is issued when it stops holding.
    pub closed spec fn spec_is_open(&self) -> bool {
        self.open
    }

    /// Initializes a session against a context from the outcome of the
    /// native open-session request for the given trusted application and
    /// login method. Success hands back an open session and counts one more
    /// open on the context; every other status becomes a session error
    /// carrying the native code and origin, and the context is untouched.
    pub fn new<A: Param, B: Param, C: Param, D: Param>(
        context: &mut Context,
        uuid: Uuid,
        login_method: ConnectionMethods,
        operation: Option<&Operation<A, B, C, D>>,
        reply: OpenSessionReply,
    ) -> (r: Result<Session>)
        requires
            old(context).spec_sessions_opened() < u64::MAX,
        ensures
            reply.status == TEEC_SUCCESS ==> match r {
                Ok(s) => s.spec_is_open() && s.spec_session_id() == reply.session_id
                    && final(context).spec_sessions_opened() == old(
                    context,
                ).spec_sessions_opened() + 1 && final(context).spec_sessions_closed() == old(
                    context,
                ).spec_sessions_closed(),
                Err(_) => false,
            },
            reply.status != TEEC_SUCCESS ==> r == Result::<Session>::Err(
                Error::SessionError {
                    kind: spec_kind_from_raw(reply.status),
                    origin: spec_origin_from_raw(reply.origin),
                },
            ) && *final(context) == *old(context),
    {
        if reply.status == TEEC_SUCCESS {
            context.note_session_opened();
            Ok(Session { session_id: reply.session_id, open: true })
        } else {
            Err(Error::from_raw_error(reply.status, reply.origin))
        }
    }

    pub fn session_id(&self) -> (r: u32)
        ensures
            r == self.spec_session_id(),
    {
        self.session_id
    }

    pub fn is_open(&self) -> (r: bool)
        ensures
            r == self.spec_is_open(),
    {
        self.open
    }

    /// Invokes a command with an operation on this session, given the
    /// outcome of the native invoke request. A session that has already
    /// been closed refuses the call with a session error instead of
    /// touching the service; on an open session the native status decides,
    /// success if and only if the service answered success. The session,
    /// the operation record and the context counters are left as they were.
    pub fn invoke_command<A: Param, B: Param, C: Param, D: Param>(
        &mut self,
        command_id: u32,
        operation: &mut Operation<A, B, C, D>,
        reply: InvokeCommandReply,
    ) -> (r: Result<()>)
        ensures
            *final(self) == *old(self),
            *final(operation) == *old(operation),
            !old(self).spec_is_open() ==> r == Result::<()>::Err(
                Error::SessionError { kind: ErrorKind::BadState, origin: ErrorOrigin::Api },
            ),
            old(self).spec_is_open() && reply.status == TEEC_SUCCESS ==> r == Result::<()>::Ok(()),
            old(self).spec_is_open() && reply.status != TEEC_SUCCESS ==> r == Result::<()>::Err(
                Error::SessionError {
                    kind: spec_kind_from_raw(reply.status),
                    origin: spec_origin_from_raw(reply.origin),
                },
            ),
    {
        if !self.open {
            return Err(Error::SessionError { kind: ErrorKind::BadState, origin: ErrorOrigin::Api });
        }
        if reply.status == TEEC_SUCCESS {
            Ok(())
        } else {
            Err(Error::from_raw_error(reply.status, reply.origin))
        }
    }

    /// Closes the session. The first close of an open session reports that
    /// the one native close request must be issued and counts it on the
    /// context; a session that is already closed reports nothing to issue
    /// and moves nothing, so each successful open is paired with exactly
    /// one close.
    pub fn close(&mut self, context: &mut Context) -> (issued: bool)
        requires
            old(context).spec_sessions_closed() < u64::MAX,
        ensures
            !final(self).spec_is_open(),
            final(self).spec_session_id() == old(self).spec_session_id(),
            issued == old(self).spec_is_open(),
            old(self).spec_is_open() ==> final(context).spec_sessions_closed() == old(
                context,
            ).spec_sessions_closed() + 1 && final(context).spec_sessions_opened() == old(
                context,
            ).spec_sessions_opened(),
            !old(self).spec_is_open() ==> *final(context) == *old(context),
    {
        if self.open {
            self.open = false;
            context.note_session_closed();
            true
        } else {
            false
        }
    }
}

} // verus!
