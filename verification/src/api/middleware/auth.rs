//! Who may do what: a caller shows a token, and the token must allow what
//! the caller asks for.

use crate::db::experiments::{Database, DatabaseView};
use crate::model::opt_view;
use crate::server::tokens::{ApiToken, ApiTokenView, Permission};
use crate::text::{from_chars, has_prefix, strip_prefix, to_chars};
use crate::time::Timestamp;
use crate::{Error, Fallible};
use vstd::prelude::*;

verus! {

/// What a caller may ask for.
#[derive(Debug, Clone, Copy, PartialEq, Eq, Structural)]
pub enum Operation {
    CreateExperiment,
    ListExperiments,
    GetExperiment,
    EditExperiment,
    DeleteExperiment,
    RunExperiment,
    AbortExperiment,
    GetProgress,
    RegisterAgent,
    AgentHeartbeat,
    ListAgents,
    GetAgent,
}

impl Operation {
    /// The permission that the operation needs: to change experiments, to
    /// read them, or to manage workers.
    pub open spec fn spec_required_permission(self) -> Permission {
        match self {
            Operation::CreateExperiment => Permission::WriteExperiments,
            Operation::EditExperiment => Permission::WriteExperiments,
            Operation::DeleteExperiment => Permission::WriteExperiments,
            Operation::RunExperiment => Permission::WriteExperiments,
            Operation::AbortExperiment => Permission::WriteExperiments,
            Operation::ListExperiments => Permission::ReadExperiments,
            Operation::GetExperiment => Permission::ReadExperiments,
            Operation::GetProgress => Permission::ReadExperiments,
            Operation::RegisterAgent => Permission::ManageAgents,
            Operation::AgentHeartbeat => Permission::ManageAgents,
            Operation::ListAgents => Permission::ManageAgents,
            Operation::GetAgent => Permission::ManageAgents,
        }
    }

    /// The permission that the operation needs.
    pub fn required_permission(&self) -> (r: Permission)
        ensures
            r == self.spec_required_permission(),
    {
        match self {
            Operation::CreateExperiment => Permission::WriteExperiments,
            Operation::EditExperiment => Permission::WriteExperiments,
            Operation::DeleteExperiment => Permission::WriteExperiments,
            Operation::RunExperiment => Permission::WriteExperiments,
            Operation::AbortExperiment => Permission::WriteExperiments,
            Operation::ListExperiments => Permission::ReadExperiments,
            Operation::GetExperiment => Permission::ReadExperiments,
            Operation::GetProgress => Permission::ReadExperiments,
            Operation::RegisterAgent => Permission::ManageAgents,
            Operation::AgentHeartbeat => Permission::ManageAgents,
            Operation::ListAgents => Permission::ManageAgents,
            Operation::GetAgent => Permission::ManageAgents,
        }
    }
}

/// The token that a header shows: what follows `Bearer ` in it.
pub open spec fn spec_bearer_token(header: Option<Seq<char>>) -> Option<Seq<char>> {
    match header {
        Some(h) => if has_prefix(h, "Bearer "@) {
            Some(h.skip(7))
        } else {
            None
        },
        None => None,
    }
}

/// The token that a header shows.
pub fn bearer_token(header: Option<&str>) -> (r: Option<String>)
    ensures
        opt_view(r) == spec_bearer_token(
            match header {
                Some(h) => Some(h@),
                None => None,
            },
        ),
{
    proof {
        reveal_strlit("Bearer ");
    }
    match header {
        Some(h) => {
            let cs = to_chars(h);
            match strip_prefix(&cs, "Bearer ") {
                Some(n) => {
                    let t = from_chars(&cs, n, cs.len());
                    assert(cs@.skip(7) =~= cs@.subrange(n as int, cs@.len() as int));
                    Some(t)
                },
                None => None,
            }
        },
        None => None,
    }
}

/// The record of the token that a header shows, where the header shows a
/// token that the store holds and that is still good at `now`.
pub open spec fn spec_auth(db: DatabaseView, header: Option<Seq<char>>, now: Timestamp) -> Option<
    ApiTokenView,
> {
    match spec_bearer_token(header) {
        Some(token) => db.valid_token(token, now),
        None => None,
    }
}

/// The record of the token that a header shows; `Unauthorized` where the
/// header is missing, shows no token, or shows one that is unknown or no
/// longer good at `now`.
pub fn auth(db: &Database, authorization: Option<&str>, now: Timestamp) -> (r: Fallible<ApiToken>)
    requires
        db@.wf(),
    ensures
        match spec_auth(
            db@,
            match authorization {
                Some(h) => Some(h@),
                None => None,
            },
            now,
        ) {
            Some(record) => r is Ok && r.unwrap()@ == record,
            None => r == Err::<ApiToken, Error>(Error::Unauthorized),
        },
{
    let token = match bearer_token(authorization) {
        Some(t) => t,
        None => {
            return Err(Error::Unauthorized);
        },
    };
    match db.validate_token_at(token.as_str(), now) {
        Ok(Some(record)) => Ok(record),
        _ => Err(Error::Unauthorized),
    }
}

/// Lets a caller through where its token allows `permission`;
/// `Forbidden` where not.
pub fn require_permission(token: &ApiToken, permission: Permission) -> (r: Fallible<()>)
    ensures
        r == if token@.allows(permission) {
            Ok::<(), Error>(())
        } else {
            Err::<(), Error>(Error::Forbidden)
        },
{
    if token.has_permission(permission) {
        Ok(())
    } else {
        Err(Error::Forbidden)
    }
}

/// Lets a caller through to an operation: the header must show a token
/// that is good at `now`, and the token must allow the operation.
/// `Unauthorized` where the token fails; `Forbidden` where it is good and
/// does not allow the operation.
pub fn authorize(db: &Database, authorization: Option<&str>, operation: Operation, now: Timestamp) -> (r:
    Fallible<ApiToken>)
    requires
        db@.wf(),
    ensures
        match spec_auth(
            db@,
            match authorization {
                Some(h) => Some(h@),
                None => None,
            },
            now,
        ) {
            Some(record) => if record.allows(operation.spec_required_permission()) {
                r is Ok && r.unwrap()@ == record
            } else {
                r == Err::<ApiToken, Error>(Error::Forbidden)
            },
            None => r == Err::<ApiToken, Error>(Error::Unauthorized),
        },
{
    let token = match auth(db, authorization, now) {
        Ok(t) => t,
        Err(e) => {
            return Err(e);
        },
    };
    match require_permission(&token, operation.required_permission()) {
        Ok(()) => Ok(token),
        Err(e) => Err(e),
    }
}

} // verus!
