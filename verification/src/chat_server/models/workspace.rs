//! Invitations to a workspace, and the rules one is accepted by.
use crate::chat_server::error::AppError;
use vstd::prelude::*;

verus! {

/// An invitation to a workspace. Times are microseconds since the epoch.
#[derive(Debug, Clone)]
pub struct WorkspaceInvitation {
    pub id: i64,
    pub workspace_id: i64,
    pub invite_code: String,
    pub created_by: i64,
    pub expires_at: Option<i64>,
    pub max_uses: Option<i32>,
    pub used_count: i32,
    pub is_active: bool,
    pub created_at: i64,
}

/// A request to create an invitation.
#[derive(Debug, Clone)]
pub struct CreateInvitation {
    pub expires_in_days: Option<i32>,
    pub max_uses: Option<i32>,
}

/// A request to join a workspace by invitation.
#[derive(Debug, Clone)]
pub struct JoinWorkspace {
    pub invite_code: String,
}

/// A `NotFound` error with the given text.
pub fn not_found(text: &str) -> (e: AppError)
    ensures
        e matches AppError::NotFound(t) && t@ == text@,
{
    AppError::NotFound(text.to_owned())
}

/// What a check on an invitation answers: nothing where it passes, a
/// `NotFound` with the fault's text where it does not.
pub open spec fn refuses(r: Result<(), AppError>, fault: Option<Seq<char>>) -> bool {
    match fault {
        None => r is Ok,
        Some(text) => r matches Err(AppError::NotFound(t)) && t@ == text,
    }
}

impl WorkspaceInvitation {
    /// Why the invitation cannot be used at time `now`, as the text of the
    /// error; `None` where it can. In this order: it was deactivated; it
    /// expired before `now`; it has been used as often as it allows.
    pub open spec fn fault_at(self, now: i64) -> Option<Seq<char>> {
        if !self.is_active {
            Some("Invitation is no longer active"@)
        } else if self.expires_at matches Some(t) && t < now {
            Some("Invitation has expired"@)
        } else if self.max_uses matches Some(m) && self.used_count >= m {
            Some("Invitation has reached maximum uses"@)
        } else {
            None
        }
    }

    /// Checks that the invitation can be used at time `now`.
    pub fn check_usable(&self, now: i64) -> (r: Result<(), AppError>)
        ensures
            refuses(r, self.fault_at(now)),
    {
        if !self.is_active {
            return Err(not_found("Invitation is no longer active"));
        }
        if let Some(expires_at) = self.expires_at {
            if expires_at < now {
                return Err(not_found("Invitation has expired"));
            }
        }
        if let Some(max_uses) = self.max_uses {
            if self.used_count >= max_uses {
                return Err(not_found("Invitation has reached maximum uses"));
            }
        }
        Ok(())
    }
}

/// Takes the invitation that the store found for a code, and checks that it
/// can be used at time `now`. No invitation under the code is an error too.
pub fn usable_invitation(found: Option<WorkspaceInvitation>, now: i64) -> (r: Result<
    WorkspaceInvitation,
    AppError,
>)
    ensures
        match found {
            None => r matches Err(AppError::NotFound(t)) && t@ == "Invalid invitation code"@,
            Some(invitation) => match invitation.fault_at(now) {
                None => r == Ok::<WorkspaceInvitation, AppError>(invitation),
                Some(text) => r matches Err(AppError::NotFound(t)) && t@ == text,
            },
        },
{
    match found {
        None => Err(not_found("Invalid invitation code")),
        Some(invitation) => match invitation.check_usable(now) {
            Ok(()) => Ok(invitation),
            Err(e) => Err(e),
        },
    }
}

} // verus!
