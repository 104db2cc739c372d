//! Job groups — batches of related jobs triggered together — the
//! request messages that address them, and their API projections.

use vstd::prelude::*;

use crate::routing::RouteKey;
use crate::states::{
    job_group_project_state_token, job_group_state_token, JobGroupProjectState, JobGroupState,
};
use crate::strutil::{dec_of, slash_join, u64_to_dec};

verus! {

/// One project's status within a job group.  The job id is zero while
/// the project has not been dispatched.
#[derive(Debug, Clone)]
pub struct JobGroupProject {
    pub name: String,
    pub ident: String,
    pub state: JobGroupProjectState,
    pub job_id: u64,
}

/// A batch of related jobs with an aggregate state, an ordered project
/// list, and the project name that triggered it.
#[derive(Debug, Clone)]
pub struct JobGroup {
    pub id: u64,
    pub state: JobGroupState,
    pub projects: Vec<JobGroupProject>,
    pub created_at: String,
    pub project_name: String,
}

/// A request to trigger a group build for one package.
#[derive(Debug, Clone)]
pub struct JobGroupSpec {
    pub origin: String,
    pub package: String,
}

impl JobGroupSpec {
    /// A group trigger routes by the composite `origin/package` string.
    pub fn route_key(&self) -> (r: Option<RouteKey>)
        ensures
            r matches Some(key) && key matches RouteKey::Str(text) && text@ == self.origin@
                + "/"@ + self.package@,
    {
        Some(RouteKey::Str(slash_join(self.origin.as_str(), self.package.as_str())))
    }
}

/// A request to fetch one job group, by id.
#[derive(Debug, Clone)]
pub struct JobGroupGet {
    pub group_id: u64,
}

impl JobGroupGet {
    /// A group fetch routes by the group id rendered in decimal.
    pub fn route_key(&self) -> (r: Option<RouteKey>)
        ensures
            r matches Some(key) && key matches RouteKey::Str(text) && text@ == dec_of(
                self.group_id as nat,
            ),
    {
        Some(RouteKey::Str(u64_to_dec(self.group_id)))
    }
}

/// A request to abort one job group, by id.
#[derive(Debug, Clone)]
pub struct JobGroupAbort {
    pub group_id: u64,
}

impl JobGroupAbort {
    /// A group abort routes by the group id rendered in decimal.
    pub fn route_key(&self) -> (r: Option<RouteKey>)
        ensures
            r matches Some(key) && key matches RouteKey::Str(text) && text@ == dec_of(
                self.group_id as nat,
            ),
    {
        Some(RouteKey::Str(u64_to_dec(self.group_id)))
    }
}

/// A request to cancel one job group, by id.
#[derive(Debug, Clone)]
pub struct JobGroupCancel {
    pub group_id: u64,
}

impl JobGroupCancel {
    /// A group cancel routes by the group id rendered in decimal.
    pub fn route_key(&self) -> (r: Option<RouteKey>)
        ensures
            r matches Some(key) && key matches RouteKey::Str(text) && text@ == dec_of(
                self.group_id as nat,
            ),
    {
        Some(RouteKey::Str(u64_to_dec(self.group_id)))
    }
}

/// A request to list the job groups of one origin.
#[derive(Debug, Clone)]
pub struct JobGroupOriginGet {
    pub origin: String,
}

impl JobGroupOriginGet {
    /// A by-origin group listing routes by the origin string.
    pub fn route_key(&self) -> (r: Option<RouteKey>)
        ensures
            r matches Some(key) && key matches RouteKey::Str(text) && text@ == self.origin@,
    {
        Some(RouteKey::Str(self.origin.clone()))
    }
}

// ---------------------------------------------------------------------------
// API projection
// ---------------------------------------------------------------------------

/// The canonical external rendering of one group project: all fields
/// always present, the state as its canonical token, and the job id as a
/// decimal string even while it is zero.
#[derive(Debug, Clone)]
pub struct JobGroupProjectApi {
    pub name: String,
    pub ident: String,
    pub state: String,
    pub job_id: String,
}

/// How a rendered group project relates to the project itself.
pub open spec fn group_project_api_matches(p: JobGroupProject, r: JobGroupProjectApi) -> bool {
    &&& r.name@ == p.name@
    &&& r.ident@ == p.ident@
    &&& r.state@ == job_group_project_state_token(p.state)
    &&& r.job_id@ == dec_of(p.job_id as nat)
}

impl JobGroupProject {
    /// Renders this group project in its canonical external form.
    pub fn to_api(&self) -> (r: JobGroupProjectApi)
        ensures
            group_project_api_matches(*self, r),
    {
        JobGroupProjectApi {
            name: self.name.clone(),
            ident: self.ident.clone(),
            state: self.state.as_token().to_owned(),
            job_id: u64_to_dec(self.job_id),
        }
    }
}

/// The canonical external rendering of a job group: all fields always
/// present, the id as a decimal string, the state as its canonical
/// token, and the projects in order.
#[derive(Debug, Clone)]
pub struct JobGroupApi {
    pub id: String,
    pub state: String,
    pub projects: Vec<JobGroupProjectApi>,
    pub created_at: String,
    pub project_name: String,
}

impl JobGroup {
    /// Renders this group in its canonical external form.
    pub fn to_api(&self) -> (r: JobGroupApi)
        ensures
            r.id@ == dec_of(self.id as nat),
            r.state@ == job_group_state_token(self.state),
            r.projects@.len() == self.projects@.len(),
            forall|i: int|
                0 <= i < self.projects@.len() ==> group_project_api_matches(
                    self.projects@[i],
                    #[trigger] r.projects@[i],
                ),
            r.created_at@ == self.created_at@,
            r.project_name@ == self.project_name@,
    {
        let mut projects: Vec<JobGroupProjectApi> = Vec::new();
        let n = self.projects.len();
        let mut i: usize = 0;
        while i < n
            invariant
                n == self.projects@.len(),
                i <= n,
                projects@.len() == i,
                forall|j: int|
                    0 <= j < i ==> group_project_api_matches(
                        self.projects@[j],
                        #[trigger] projects@[j],
                    ),
            decreases n - i,
        {
            projects.push(self.projects[i].to_api());
            i += 1;
        }
        JobGroupApi {
            id: u64_to_dec(self.id),
            state: self.state.as_token().to_owned(),
            projects,
            created_at: self.created_at.clone(),
            project_name: self.project_name.clone(),
        }
    }
}

} // verus!
