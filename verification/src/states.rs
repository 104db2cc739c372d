//! State codec: the three state families (job, job group, job-group
//! project), each with a fixed integer-to-token table.  Tokens are part of
//! the wire/API contract: rendering always uses the canonical token, and
//! parsing is case-insensitive and fails with a typed error carrying the
//! offending string.

use vstd::prelude::*;

use crate::error::ProtocolError;
use crate::strutil::{eq_ignore_ascii_case, eq_ignore_case, lower_seq};

verus! {

// ---------------------------------------------------------------------------
// JobState
// ---------------------------------------------------------------------------

/// The state machine of one build job.
#[derive(Clone, Copy, Debug, PartialEq, Eq, Structural)]
pub enum JobState {
    Pending,
    Processing,
    Complete,
    Rejected,
    Failed,
    Dispatched,
    CancelPending,
    CancelProcessing,
    CancelComplete,
}

/// The canonical token of a job state.
pub open spec fn job_state_token(s: JobState) -> Seq<char> {
    match s {
        JobState::Pending => "Pending"@,
        JobState::Processing => "Processing"@,
        JobState::Complete => "Complete"@,
        JobState::Rejected => "Rejected"@,
        JobState::Failed => "Failed"@,
        JobState::Dispatched => "Dispatched"@,
        JobState::CancelPending => "CancelPending"@,
        JobState::CancelProcessing => "CancelProcessing"@,
        JobState::CancelComplete => "CancelComplete"@,
    }
}

/// The fixed numeric value of a job state.
pub open spec fn job_state_index(s: JobState) -> u64 {
    match s {
        JobState::Pending => 0,
        JobState::Processing => 1,
        JobState::Complete => 2,
        JobState::Rejected => 3,
        JobState::Failed => 4,
        JobState::Dispatched => 5,
        JobState::CancelPending => 6,
        JobState::CancelProcessing => 7,
        JobState::CancelComplete => 8,
    }
}

/// The job state a token decodes to, up to ASCII case; `None` when the
/// token matches no entry of the table.
pub open spec fn job_state_decode(t: Seq<char>) -> Option<JobState> {
    if eq_ignore_case(t, "Pending"@) {
        Some(JobState::Pending)
    } else if eq_ignore_case(t, "Processing"@) {
        Some(JobState::Processing)
    } else if eq_ignore_case(t, "Complete"@) {
        Some(JobState::Complete)
    } else if eq_ignore_case(t, "Rejected"@) {
        Some(JobState::Rejected)
    } else if eq_ignore_case(t, "Failed"@) {
        Some(JobState::Failed)
    } else if eq_ignore_case(t, "Dispatched"@) {
        Some(JobState::Dispatched)
    } else if eq_ignore_case(t, "CancelPending"@) {
        Some(JobState::CancelPending)
    } else if eq_ignore_case(t, "CancelProcessing"@) {
        Some(JobState::CancelProcessing)
    } else if eq_ignore_case(t, "CancelComplete"@) {
        Some(JobState::CancelComplete)
    } else {
        None
    }
}

impl JobState {
    /// Renders this state as its canonical token.  Display and API
    /// projection both go through this table, so the human-readable and
    /// wire forms can never diverge.
    pub fn as_token(&self) -> (r: &'static str)
        ensures
            r@ == job_state_token(*self),
    {
        match *self {
            JobState::Pending => "Pending",
            JobState::Processing => "Processing",
            JobState::Complete => "Complete",
            JobState::Rejected => "Rejected",
            JobState::Failed => "Failed",
            JobState::Dispatched => "Dispatched",
            JobState::CancelPending => "CancelPending",
            JobState::CancelProcessing => "CancelProcessing",
            JobState::CancelComplete => "CancelComplete",
        }
    }

    /// Parses a token, ignoring ASCII case.  On failure the error names
    /// the offending string.
    pub fn from_str(value: &str) -> (r: Result<JobState, ProtocolError>)
        ensures
            r is Ok <==> job_state_decode(value@) is Some,
            r is Ok ==> r->Ok_0 == job_state_decode(value@)->0,
            r is Err ==> (r->Err_0 matches ProtocolError::BadJobState(raw) && raw@ == value@),
    {
        if eq_ignore_ascii_case(value, "Pending") {
            Ok(JobState::Pending)
        } else if eq_ignore_ascii_case(value, "Processing") {
            Ok(JobState::Processing)
        } else if eq_ignore_ascii_case(value, "Complete") {
            Ok(JobState::Complete)
        } else if eq_ignore_ascii_case(value, "Rejected") {
            Ok(JobState::Rejected)
        } else if eq_ignore_ascii_case(value, "Failed") {
            Ok(JobState::Failed)
        } else if eq_ignore_ascii_case(value, "Dispatched") {
            Ok(JobState::Dispatched)
        } else if eq_ignore_ascii_case(value, "CancelPending") {
            Ok(JobState::CancelPending)
        } else if eq_ignore_ascii_case(value, "CancelProcessing") {
            Ok(JobState::CancelProcessing)
        } else if eq_ignore_ascii_case(value, "CancelComplete") {
            Ok(JobState::CancelComplete)
        } else {
            Err(ProtocolError::BadJobState(value.to_owned()))
        }
    }

    /// The fixed numeric value of this state.
    pub fn to_index(&self) -> (r: u64)
        ensures
            r == job_state_index(*self),
    {
        match *self {
            JobState::Pending => 0,
            JobState::Processing => 1,
            JobState::Complete => 2,
            JobState::Rejected => 3,
            JobState::Failed => 4,
            JobState::Dispatched => 5,
            JobState::CancelPending => 6,
            JobState::CancelProcessing => 7,
            JobState::CancelComplete => 8,
        }
    }

    /// The state assigned to a numeric value, or `None` out of range.
    /// An out-of-range value in stored data is an upstream invariant
    /// violation; callers must treat `None` as fatal, never coerce it.
    pub fn from_index(value: u64) -> (r: Option<JobState>)
        ensures
            r is Some <==> value < 9,
            r is Some ==> job_state_index(r->0) == value,
    {
        match value {
            0 => Some(JobState::Pending),
            1 => Some(JobState::Processing),
            2 => Some(JobState::Complete),
            3 => Some(JobState::Rejected),
            4 => Some(JobState::Failed),
            5 => Some(JobState::Dispatched),
            6 => Some(JobState::CancelPending),
            7 => Some(JobState::CancelProcessing),
            8 => Some(JobState::CancelComplete),
            _ => None,
        }
    }
}

impl Default for JobState {
    /// Jobs start out pending.
    fn default() -> (r: JobState)
        ensures
            r == JobState::Pending,
    {
        JobState::Pending
    }
}

/// Decoding a rendered job state gives the state back, for every state.
pub proof fn lemma_job_state_round_trip(s: JobState)
    ensures
        job_state_decode(job_state_token(s)) == Some(s),
{
    reveal_strlit("Pending");
    reveal_strlit("Processing");
    reveal_strlit("Complete");
    reveal_strlit("Rejected");
    reveal_strlit("Failed");
    reveal_strlit("Dispatched");
    reveal_strlit("CancelPending");
    reveal_strlit("CancelProcessing");
    reveal_strlit("CancelComplete");
    assert(lower_seq("Pending"@).len() == 7);
    assert(lower_seq("Processing"@).len() == 10);
    assert(lower_seq("Complete"@).len() == 8);
    assert(lower_seq("Rejected"@).len() == 8);
    assert(lower_seq("Failed"@).len() == 6);
    assert(lower_seq("Dispatched"@).len() == 10);
    assert(lower_seq("CancelPending"@).len() == 13);
    assert(lower_seq("CancelProcessing"@).len() == 16);
    assert(lower_seq("CancelComplete"@).len() == 14);
    assert(lower_seq("Complete"@)[0] != lower_seq("Rejected"@)[0]);
    assert(lower_seq("Processing"@)[0] != lower_seq("Dispatched"@)[0]);
}

/// Job-state decoding is insensitive to ASCII case: two spellings that
/// fold to the same characters decode alike.
pub proof fn lemma_job_state_decode_case_insensitive(a: Seq<char>, b: Seq<char>)
    requires
        eq_ignore_case(a, b),
    ensures
        job_state_decode(a) == job_state_decode(b),
{
}

// ---------------------------------------------------------------------------
// JobGroupState
// ---------------------------------------------------------------------------

/// The state machine of a job group.  Note the fixed numeric table: value
/// 0 is `Pending` and value 1 is `Dispatching`; this assignment is part of
/// the compatibility contract and must not be reordered.
#[derive(Clone, Copy, Debug, PartialEq, Eq, Structural)]
pub enum JobGroupState {
    GroupPending,
    GroupDispatching,
    GroupComplete,
    GroupFailed,
    GroupQueued,
    GroupCanceled,
}

/// The canonical token of a job-group state.
pub open spec fn job_group_state_token(s: JobGroupState) -> Seq<char> {
    match s {
        JobGroupState::GroupPending => "Pending"@,
        JobGroupState::GroupDispatching => "Dispatching"@,
        JobGroupState::GroupComplete => "Complete"@,
        JobGroupState::GroupFailed => "Failed"@,
        JobGroupState::GroupQueued => "Queued"@,
        JobGroupState::GroupCanceled => "Canceled"@,
    }
}

/// The fixed numeric value of a job-group state.
pub open spec fn job_group_state_index(s: JobGroupState) -> u64 {
    match s {
        JobGroupState::GroupPending => 0,
        JobGroupState::GroupDispatching => 1,
        JobGroupState::GroupComplete => 2,
        JobGroupState::GroupFailed => 3,
        JobGroupState::GroupQueued => 4,
        JobGroupState::GroupCanceled => 5,
    }
}

/// The job-group state a token decodes to, up to ASCII case.
pub open spec fn job_group_state_decode(t: Seq<char>) -> Option<JobGroupState> {
    if eq_ignore_case(t, "Dispatching"@) {
        Some(JobGroupState::GroupDispatching)
    } else if eq_ignore_case(t, "Pending"@) {
        Some(JobGroupState::GroupPending)
    } else if eq_ignore_case(t, "Complete"@) {
        Some(JobGroupState::GroupComplete)
    } else if eq_ignore_case(t, "Failed"@) {
        Some(JobGroupState::GroupFailed)
    } else if eq_ignore_case(t, "Queued"@) {
        Some(JobGroupState::GroupQueued)
    } else if eq_ignore_case(t, "Canceled"@) {
        Some(JobGroupState::GroupCanceled)
    } else {
        None
    }
}

impl JobGroupState {
    /// Renders this state as its canonical token.
    pub fn as_token(&self) -> (r: &'static str)
        ensures
            r@ == job_group_state_token(*self),
    {
        match *self {
            JobGroupState::GroupPending => "Pending",
            JobGroupState::GroupDispatching => "Dispatching",
            JobGroupState::GroupComplete => "Complete",
            JobGroupState::GroupFailed => "Failed",
            JobGroupState::GroupQueued => "Queued",
            JobGroupState::GroupCanceled => "Canceled",
        }
    }

    /// Parses a token, ignoring ASCII case.  On failure the error names
    /// the offending string.
    pub fn from_str(value: &str) -> (r: Result<JobGroupState, ProtocolError>)
        ensures
            r is Ok <==> job_group_state_decode(value@) is Some,
            r is Ok ==> r->Ok_0 == job_group_state_decode(value@)->0,
            r is Err ==> (r->Err_0 matches ProtocolError::BadJobGroupState(raw) && raw@
                == value@),
    {
        if eq_ignore_ascii_case(value, "Dispatching") {
            Ok(JobGroupState::GroupDispatching)
        } else if eq_ignore_ascii_case(value, "Pending") {
            Ok(JobGroupState::GroupPending)
        } else if eq_ignore_ascii_case(value, "Complete") {
            Ok(JobGroupState::GroupComplete)
        } else if eq_ignore_ascii_case(value, "Failed") {
            Ok(JobGroupState::GroupFailed)
        } else if eq_ignore_ascii_case(value, "Queued") {
            Ok(JobGroupState::GroupQueued)
        } else if eq_ignore_ascii_case(value, "Canceled") {
            Ok(JobGroupState::GroupCanceled)
        } else {
            Err(ProtocolError::BadJobGroupState(value.to_owned()))
        }
    }

    /// The fixed numeric value of this state.
    pub fn to_index(&self) -> (r: u64)
        ensures
            r == job_group_state_index(*self),
    {
        match *self {
            JobGroupState::GroupPending => 0,
            JobGroupState::GroupDispatching => 1,
            JobGroupState::GroupComplete => 2,
            JobGroupState::GroupFailed => 3,
            JobGroupState::GroupQueued => 4,
            JobGroupState::GroupCanceled => 5,
        }
    }

    /// The state assigned to a numeric value, or `None` out of range.
    pub fn from_index(value: u64) -> (r: Option<JobGroupState>)
        ensures
            r is Some <==> value < 6,
            r is Some ==> job_group_state_index(r->0) == value,
    {
        match value {
            0 => Some(JobGroupState::GroupPending),
            1 => Some(JobGroupState::GroupDispatching),
            2 => Some(JobGroupState::GroupComplete),
            3 => Some(JobGroupState::GroupFailed),
            4 => Some(JobGroupState::GroupQueued),
            5 => Some(JobGroupState::GroupCanceled),
            _ => None,
        }
    }
}

/// Decoding a rendered job-group state gives the state back, for every
/// state.
pub proof fn lemma_job_group_state_round_trip(s: JobGroupState)
    ensures
        job_group_state_decode(job_group_state_token(s)) == Some(s),
{
    reveal_strlit("Dispatching");
    reveal_strlit("Pending");
    reveal_strlit("Complete");
    reveal_strlit("Failed");
    reveal_strlit("Queued");
    reveal_strlit("Canceled");
    assert(lower_seq("Dispatching"@).len() == 11);
    assert(lower_seq("Pending"@).len() == 7);
    assert(lower_seq("Complete"@).len() == 8);
    assert(lower_seq("Failed"@).len() == 6);
    assert(lower_seq("Queued"@).len() == 6);
    assert(lower_seq("Canceled"@).len() == 8);
    assert(lower_seq("Failed"@)[0] != lower_seq("Queued"@)[0]);
    assert(lower_seq("Complete"@)[1] != lower_seq("Canceled"@)[1]);
}

/// Job-group-state decoding is insensitive to ASCII case.
pub proof fn lemma_job_group_state_decode_case_insensitive(a: Seq<char>, b: Seq<char>)
    requires
        eq_ignore_case(a, b),
    ensures
        job_group_state_decode(a) == job_group_state_decode(b),
{
}

// ---------------------------------------------------------------------------
// JobGroupProjectState
// ---------------------------------------------------------------------------

/// The state of one project within a job group.
#[derive(Clone, Copy, Debug, PartialEq, Eq, Structural)]
pub enum JobGroupProjectState {
    NotStarted,
    InProgress,
    Success,
    Failure,
    Skipped,
    Canceled,
}

/// The canonical token of a job-group-project state.
pub open spec fn job_group_project_state_token(s: JobGroupProjectState) -> Seq<char> {
    match s {
        JobGroupProjectState::NotStarted => "NotStarted"@,
        JobGroupProjectState::InProgress => "InProgress"@,
        JobGroupProjectState::Success => "Success"@,
        JobGroupProjectState::Failure => "Failure"@,
        JobGroupProjectState::Skipped => "Skipped"@,
        JobGroupProjectState::Canceled => "Canceled"@,
    }
}

/// The fixed numeric value of a job-group-project state.
pub open spec fn job_group_project_state_index(s: JobGroupProjectState) -> u64 {
    match s {
        JobGroupProjectState::NotStarted => 0,
        JobGroupProjectState::InProgress => 1,
        JobGroupProjectState::Success => 2,
        JobGroupProjectState::Failure => 3,
        JobGroupProjectState::Skipped => 4,
        JobGroupProjectState::Canceled => 5,
    }
}

/// The job-group-project state a token decodes to, up to ASCII case.
pub open spec fn job_group_project_state_decode(t: Seq<char>) -> Option<JobGroupProjectState> {
    if eq_ignore_case(t, "NotStarted"@) {
        Some(JobGroupProjectState::NotStarted)
    } else if eq_ignore_case(t, "InProgress"@) {
        Some(JobGroupProjectState::InProgress)
    } else if eq_ignore_case(t, "Success"@) {
        Some(JobGroupProjectState::Success)
    } else if eq_ignore_case(t, "Failure"@) {
        Some(JobGroupProjectState::Failure)
    } else if eq_ignore_case(t, "Skipped"@) {
        Some(JobGroupProjectState::Skipped)
    } else if eq_ignore_case(t, "Canceled"@) {
        Some(JobGroupProjectState::Canceled)
    } else {
        None
    }
}

impl JobGroupProjectState {
    /// Renders this state as its canonical token.
    pub fn as_token(&self) -> (r: &'static str)
        ensures
            r@ == job_group_project_state_token(*self),
    {
        match *self {
            JobGroupProjectState::NotStarted => "NotStarted",
            JobGroupProjectState::InProgress => "InProgress",
            JobGroupProjectState::Success => "Success",
            JobGroupProjectState::Failure => "Failure",
            JobGroupProjectState::Skipped => "Skipped",
            JobGroupProjectState::Canceled => "Canceled",
        }
    }

    /// Parses a token, ignoring ASCII case.  On failure the error names
    /// the offending string.
    pub fn from_str(value: &str) -> (r: Result<JobGroupProjectState, ProtocolError>)
        ensures
            r is Ok <==> job_group_project_state_decode(value@) is Some,
            r is Ok ==> r->Ok_0 == job_group_project_state_decode(value@)->0,
            r is Err ==> (r->Err_0 matches ProtocolError::BadJobGroupProjectState(raw) && raw@
                == value@),
    {
        if eq_ignore_ascii_case(value, "NotStarted") {
            Ok(JobGroupProjectState::NotStarted)
        } else if eq_ignore_ascii_case(value, "InProgress") {
            Ok(JobGroupProjectState::InProgress)
        } else if eq_ignore_ascii_case(value, "Success") {
            Ok(JobGroupProjectState::Success)
        } else if eq_ignore_ascii_case(value, "Failure") {
            Ok(JobGroupProjectState::Failure)
        } else if eq_ignore_ascii_case(value, "Skipped") {
            Ok(JobGroupProjectState::Skipped)
        } else if eq_ignore_ascii_case(value, "Canceled") {
            Ok(JobGroupProjectState::Canceled)
        } else {
            Err(ProtocolError::BadJobGroupProjectState(value.to_owned()))
        }
    }

    /// The fixed numeric value of this state.
    pub fn to_index(&self) -> (r: u64)
        ensures
            r == job_group_project_state_index(*self),
    {
        match *self {
            JobGroupProjectState::NotStarted => 0,
            JobGroupProjectState::InProgress => 1,
            JobGroupProjectState::Success => 2,
            JobGroupProjectState::Failure => 3,
            JobGroupProjectState::Skipped => 4,
            JobGroupProjectState::Canceled => 5,
        }
    }

    /// The state assigned to a numeric value, or `None` out of range.
    pub fn from_index(value: u64) -> (r: Option<JobGroupProjectState>)
        ensures
            r is Some <==> value < 6,
            r is Some ==> job_group_project_state_index(r->0) == value,
    {
        match value {
            0 => Some(JobGroupProjectState::NotStarted),
            1 => Some(JobGroupProjectState::InProgress),
            2 => Some(JobGroupProjectState::Success),
            3 => Some(JobGroupProjectState::Failure),
            4 => Some(JobGroupProjectState::Skipped),
            5 => Some(JobGroupProjectState::Canceled),
            _ => None,
        }
    }
}

/// Decoding a rendered job-group-project state gives the state back, for
/// every state.
pub proof fn lemma_job_group_project_state_round_trip(s: JobGroupProjectState)
    ensures
        job_group_project_state_decode(job_group_project_state_token(s)) == Some(s),
{
    reveal_strlit("NotStarted");
    reveal_strlit("InProgress");
    reveal_strlit("Success");
    reveal_strlit("Failure");
    reveal_strlit("Skipped");
    reveal_strlit("Canceled");
    assert(lower_seq("NotStarted"@).len() == 10);
    assert(lower_seq("InProgress"@).len() == 10);
    assert(lower_seq("Success"@).len() == 7);
    assert(lower_seq("Failure"@).len() == 7);
    assert(lower_seq("Skipped"@).len() == 7);
    assert(lower_seq("Canceled"@).len() == 8);
    assert(lower_seq("NotStarted"@)[0] != lower_seq("InProgress"@)[0]);
    assert(lower_seq("Success"@)[0] != lower_seq("Failure"@)[0]);
    assert(lower_seq("Success"@)[1] != lower_seq("Skipped"@)[1]);
    assert(lower_seq("Failure"@)[0] != lower_seq("Skipped"@)[0]);
}

/// Job-group-project-state decoding is insensitive to ASCII case.
pub proof fn lemma_job_group_project_state_decode_case_insensitive(a: Seq<char>, b: Seq<char>)
    requires
        eq_ignore_case(a, b),
    ensures
        job_group_project_state_decode(a) == job_group_project_state_decode(b),
{
}

} // verus!
