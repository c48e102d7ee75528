//! Small computations shared by the services.
use vstd::prelude::*;
use vstd::string::*;
use chrono::NaiveDateTime;
use crate::enums::Id;

verus! {

/// How many questions of each type a quiz holds.
#[derive(Clone, Copy, Debug, PartialEq, Eq, Structural)]
pub struct QuestionCounts {
    pub multiple_choices: u64,
    pub check_boxes: u64,
    pub text_fill: u64,
}

/// The question total used when a test is created: the check-box count
/// twice plus the text-fill count (the multiple-choice count takes no part).
pub open spec fn question_total(counts: QuestionCounts) -> int {
    counts.check_boxes + counts.check_boxes + counts.text_fill
}

/// The number of questions a new test of a quiz is given, from the quiz's
/// question counts.
pub fn total_question_count(counts: QuestionCounts) -> (total: u64)
    requires
        question_total(counts) <= u64::MAX,
    ensures
        total == question_total(counts),
{
    counts.check_boxes + counts.check_boxes + counts.text_fill
}

/// The label of a test's progress, from when it was started and submitted.
pub open spec fn test_status_label(started: bool, submitted: bool) -> Seq<char> {
    if !started && !submitted {
        "Not Started"@
    } else if started && !submitted {
        "In Progess"@
    } else {
        "Completed"@
    }
}

/// Names the progress of a test: not started, in progress, or completed
/// (as soon as it has a submission time).
pub fn check_test_status(started_at: Option<NaiveDateTime>, submitted_at: Option<NaiveDateTime>) -> (label: String)
    ensures
        label@ == test_status_label(started_at is Some, submitted_at is Some),
{
    if started_at.is_none() && submitted_at.is_none() {
        String::from_str("Not Started")
    } else if started_at.is_some() && submitted_at.is_none() {
        String::from_str("In Progess")
    } else {
        String::from_str("Completed")
    }
}

/// How long a login token stays valid, in seconds (one day).
pub const TOKEN_LIFETIME_SECONDS: i64 = 86400;

/// What a login token states about its holder.
#[derive(Clone, Debug)]
pub struct Claims {
    pub id: Id,
    pub role: String,
    /// Expiry, in seconds since the Unix epoch.
    pub exp: usize,
}

impl Claims {
    /// The claims of a token issued at `now` (seconds since the Unix epoch)
    /// to the user `user_id` with role `role`; it expires one day later.
    pub fn for_user(user_id: Id, role: String, now: i64) -> (claims: Claims)
        requires
            now + TOKEN_LIFETIME_SECONDS <= i64::MAX,
        ensures
            claims.id == user_id,
            claims.role@ == role@,
            claims.exp == (now + TOKEN_LIFETIME_SECONDS) as usize,
    {
        let expiry: i64 = now + TOKEN_LIFETIME_SECONDS;
        Claims { id: user_id, role, exp: expiry as usize }
    }
}

} // verus!
