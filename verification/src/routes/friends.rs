//! Friendships: what a friend request does.

use vstd::prelude::*;

use crate::error::{is_bad_request, AppError};
use crate::models::FriendshipStatus;

verus! {

/// A friend request.
#[derive(Debug, Clone)]
pub struct RequestBody {
    pub email: String,
}

/// What a friend request does.
#[derive(Debug, Clone, Copy, PartialEq, Eq, Structural)]
pub enum RequestStep {
    /// Nothing: no account has that address, and the answer does not say so.
    Nothing,
    /// The other person already asked: accept their request (marking it
    /// accepted when it is not yet).
    AcceptTheirs { mark_accepted: bool },
    /// Record a pending request from me to them.
    Ask,
}

/// What a friend request does, or why it is refused: nothing when no
/// account has the address; refused for oneself; accepting their request
/// when they already asked; else a new request.
pub open spec fn request_step(me: u128, other: Option<u128>, theirs: Option<FriendshipStatus>) -> Result<RequestStep, Seq<char>> {
    match other {
        None => Ok(RequestStep::Nothing),
        Some(o) => if o == me {
            Err("you cannot befriend yourself"@)
        } else {
            match theirs {
                Some(s) => Ok(RequestStep::AcceptTheirs { mark_accepted: s != FriendshipStatus::Accepted }),
                None => Ok(RequestStep::Ask),
            }
        },
    }
}

/// Decide what a friend request does, given the account with the address
/// (if any) and any request that account already sent me.
pub fn friend_request_step(me: u128, other: Option<u128>, theirs: Option<FriendshipStatus>) -> (r: Result<RequestStep, AppError>)
    ensures
        r matches Ok(s) ==> request_step(me, other, theirs) == Ok::<RequestStep, Seq<char>>(s),
        r matches Err(e) ==> request_step(me, other, theirs) matches Err(m) && is_bad_request(e, m),
        request_step(me, other, theirs) is Ok ==> r is Ok,
{
    let o = match other {
        None => return Ok(RequestStep::Nothing),
        Some(o) => o,
    };
    if o == me {
        return Err(AppError::bad_request("you cannot befriend yourself"));
    }
    match theirs {
        Some(s) => Ok(RequestStep::AcceptTheirs { mark_accepted: s != FriendshipStatus::Accepted }),
        None => Ok(RequestStep::Ask),
    }
}

/// The status a friend request is answered with for a step.
pub open spec fn answer_of(step: RequestStep) -> Seq<char> {
    if step matches RequestStep::AcceptTheirs { .. } {
        "accepted"@
    } else {
        "pending"@
    }
}

/// The status a friend request is answered with.
pub fn request_status(step: RequestStep) -> (s: &'static str)
    ensures
        s@ == answer_of(step),
{
    match step {
        RequestStep::AcceptTheirs { .. } => "accepted",
        _ => "pending",
    }
}

/// A request to an address no account has is answered exactly like a new
/// request to an account that exists, so the answer does not reveal who has
/// an account.
pub proof fn law_unknown_addresses_are_not_revealed(me: u128, stranger: u128, theirs: Option<FriendshipStatus>)
    requires
        stranger != me,
    ensures
        request_step(me, None, theirs) matches Ok(s) && answer_of(s) == answer_of(RequestStep::Ask),
        request_step(me, Some(stranger), None) == Ok::<RequestStep, Seq<char>>(RequestStep::Ask),
{
}

} // verus!
