//! Decisions of the onboarding commands and of the RPC lock.
//!
//! A manager approves, denies or resets the onboarding of a staff member.
//! What state the member is in comes from the database as text; what the
//! manager clicked comes from the chat platform as the id of a button.

use crate::text::str_eq;
use vstd::prelude::*;

verus! {

/// The states of an onboarding that the commands deal with.
#[derive(Clone, Copy, Debug, PartialEq, Eq, Structural)]
pub enum OnboardState {
    /// The member has yet to begin.
    Pending,
    /// The member is done and waits for a manager.
    PendingManagerReview,
    /// A manager has denied the onboarding.
    Denied,
    /// A manager has approved the onboarding.
    Completed,
}

/// Why an onboarding command does nothing.
#[derive(Clone, Copy, Debug, PartialEq, Eq, Structural)]
pub enum OnboardError {
    /// The member is not in a state in which the command applies.
    NotPendingReview,
}

/// What a manager did with a question that offers to continue or to cancel.
#[derive(Clone, Copy, Debug, PartialEq, Eq, Structural)]
pub enum Confirmation {
    /// Nothing was clicked in time.
    TimedOut,
    /// The manager cancelled.
    Cancelled,
    /// The manager wants to go on.
    Proceed,
}

/// What is done about a request to unlock RPC.
#[derive(Clone, Copy, Debug, PartialEq, Eq, Structural)]
pub enum UnlockDecision {
    /// Withdraw the question.
    Cancel,
    /// Log the unlock and record the time.
    Unlock,
    /// Do nothing.
    Ignore,
}

/// The text that stands for a state in the database.
pub open spec fn state_text(state: OnboardState) -> Seq<char> {
    match state {
        OnboardState::Pending => "pending"@,
        OnboardState::PendingManagerReview => "pending-manager-review"@,
        OnboardState::Denied => "denied"@,
        OnboardState::Completed => "completed"@,
    }
}

/// Whether an onboarding in the state `current` can be approved: it waits
/// for a manager or was denied before.
pub open spec fn can_approve(current: Seq<char>) -> bool {
    current == state_text(OnboardState::PendingManagerReview) || current == state_text(
        OnboardState::Denied,
    )
}

/// Whether an onboarding in the state `current` can be denied: it waits for
/// a manager.
pub open spec fn can_deny(current: Seq<char>) -> bool {
    current == state_text(OnboardState::PendingManagerReview)
}

/// What a click, or none, means for a question with the buttons `continue`
/// and `cancel`.
pub open spec fn confirmation_of(pressed: Option<Seq<char>>) -> Confirmation {
    match pressed {
        None => Confirmation::TimedOut,
        Some(id) => if id == "cancel"@ {
            Confirmation::Cancelled
        } else {
            Confirmation::Proceed
        },
    }
}

/// What a click, or none, means for the question before an unlock.
pub open spec fn unlock_of(pressed: Option<Seq<char>>) -> UnlockDecision {
    match pressed {
        None => UnlockDecision::Ignore,
        Some(id) => if id == "a:cancel"@ {
            UnlockDecision::Cancel
        } else if id == "a:unlock"@ {
            UnlockDecision::Unlock
        } else {
            UnlockDecision::Ignore
        },
    }
}

impl OnboardState {
    /// The text that stands for this state in the database.
    pub fn as_str(&self) -> (text: &'static str)
        ensures
            text@ == state_text(*self),
    {
        match self {
            OnboardState::Pending => "pending",
            OnboardState::PendingManagerReview => "pending-manager-review",
            OnboardState::Denied => "denied",
            OnboardState::Completed => "completed",
        }
    }
}

/// Decides on an approval: the state that the member moves to.
pub fn approve_onboarding(current: &str) -> (result: Result<OnboardState, OnboardError>)
    ensures
        result is Ok <==> can_approve(current@),
        result matches Ok(next) ==> next == OnboardState::Completed,
{
    if str_eq(current, OnboardState::PendingManagerReview.as_str()) || str_eq(
        current,
        OnboardState::Denied.as_str(),
    ) {
        Ok(OnboardState::Completed)
    } else {
        Err(OnboardError::NotPendingReview)
    }
}

/// Decides on a denial: the state that the member moves to.
pub fn deny_onboarding(current: &str) -> (result: Result<OnboardState, OnboardError>)
    ensures
        result is Ok <==> can_deny(current@),
        result matches Ok(next) ==> next == OnboardState::Denied,
{
    if str_eq(current, OnboardState::PendingManagerReview.as_str()) {
        Ok(OnboardState::Denied)
    } else {
        Err(OnboardError::NotPendingReview)
    }
}

/// Reads the answer to a question with the buttons `continue` and `cancel`.
pub fn confirmation(pressed: Option<&str>) -> (answer: Confirmation)
    ensures
        answer == confirmation_of(
            match pressed {
                Some(id) => Some(id@),
                None => None,
            },
        ),
{
    match pressed {
        None => Confirmation::TimedOut,
        Some(id) => if str_eq(id, "cancel") {
            Confirmation::Cancelled
        } else {
            Confirmation::Proceed
        },
    }
}

/// Decides on a reset, which a manager has to confirm: the state that the
/// member moves to, if any.
pub fn reset_onboarding(pressed: Option<&str>) -> (next: Option<OnboardState>)
    ensures
        next == match pressed {
            None => None::<OnboardState>,
            Some(id) => if id@ == "cancel"@ {
                None
            } else {
                Some(OnboardState::Pending)
            },
        },
{
    match confirmation(pressed) {
        Confirmation::Proceed => Some(OnboardState::Pending),
        _ => None,
    }
}

/// Reads the answer to the question before an unlock of RPC.
pub fn unlock_decision(pressed: Option<&str>) -> (decision: UnlockDecision)
    ensures
        decision == unlock_of(
            match pressed {
                Some(id) => Some(id@),
                None => None,
            },
        ),
{
    match pressed {
        None => UnlockDecision::Ignore,
        Some(id) => if str_eq(id, "a:cancel") {
            UnlockDecision::Cancel
        } else if str_eq(id, "a:unlock") {
            UnlockDecision::Unlock
        } else {
            UnlockDecision::Ignore
        },
    }
}

/// An approval and a denial never apply to a member who is done or has
/// yet to begin, and whoever can be denied can be approved.
pub proof fn lemma_review_states(current: Seq<char>)
    ensures
        can_deny(current) ==> can_approve(current),
        current == state_text(OnboardState::Completed) ==> !can_approve(current),
        current == state_text(OnboardState::Pending) ==> !can_approve(current),
{
    reveal_strlit("pending");
    reveal_strlit("pending-manager-review");
    reveal_strlit("denied");
    reveal_strlit("completed");
    if current == state_text(OnboardState::Completed) {
        assert(current.len() == 9);
        assert(current[0] == 'c');
    }
    if current == state_text(OnboardState::Pending) {
        assert(current.len() == 7);
    }
}

} // verus!
