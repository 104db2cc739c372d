//! The build-job entity, the request messages that address single jobs,
//! and their routing keys and API projections.

use vstd::prelude::*;

use crate::ident::PackageIdent;
use crate::routing::{InstaId, RouteKey};
use crate::states::{job_state_token, JobState};
use crate::strutil::{dec_of, u64_to_dec};

verus! {

/// The project a job builds: its origin and its package name.  The
/// project reference is always present on a job, while the package
/// identifier only appears on successful completion.
#[derive(Debug, Clone)]
pub struct Project {
    pub origin_name: String,
    pub package_name: String,
}

/// A request to create a job: the owner, the project to build, and an
/// optional release channel.
#[derive(Debug, Clone)]
pub struct JobSpec {
    pub owner_id: u64,
    pub project: Project,
    pub channel: Option<String>,
}

/// One build unit, tracked through the job state machine.
#[derive(Debug, Clone)]
pub struct Job {
    pub id: u64,
    pub owner_id: u64,
    pub state: JobState,
    pub project: Project,
    pub channel: Option<String>,
    pub package_ident: Option<PackageIdent>,
    pub build_started_at: Option<String>,
    pub build_finished_at: Option<String>,
    pub error: Option<String>,
    pub created_at: Option<String>,
}

/// Optional fields of a job are present only when consistent with its
/// state: a package identifier only on completion, and a build-finish
/// time only after a build start.
pub open spec fn job_wf(job: Job) -> bool {
    &&& job.package_ident is Some ==> job.state == JobState::Complete
    &&& job.build_finished_at is Some ==> job.build_started_at is Some
}

/// The job a spec gives rise to: the owner and project are copied, the
/// channel is copied when the spec supplied one, the state is the
/// default (pending), and everything else — id, package identifier,
/// timestamps, error — starts unset.
pub open spec fn job_of_spec(value: JobSpec) -> Job {
    Job {
        id: 0,
        owner_id: value.owner_id,
        state: JobState::Pending,
        project: value.project,
        channel: value.channel,
        package_ident: None,
        build_started_at: None,
        build_finished_at: None,
        error: None,
        created_at: None,
    }
}

impl From<JobSpec> for Job {
    fn from(value: JobSpec) -> (r: Job) {
        Job {
            id: 0,
            owner_id: value.owner_id,
            state: JobState::Pending,
            project: value.project,
            channel: value.channel,
            package_ident: None,
            build_started_at: None,
            build_finished_at: None,
            error: None,
            created_at: None,
        }
    }
}

impl vstd::std_specs::convert::FromSpecImpl<JobSpec> for Job {
    open spec fn obeys_from_spec() -> bool {
        true
    }

    open spec fn from_spec(value: JobSpec) -> Job {
        job_of_spec(value)
    }
}

/// A newly specified job is well formed.
pub proof fn lemma_job_of_spec_wf(value: JobSpec)
    ensures
        job_wf(job_of_spec(value)),
{
}

impl JobSpec {
    /// Job creation routes by the owner's opaque shard id.
    pub fn route_key(&self) -> (r: Option<RouteKey>)
        ensures
            r == Some(RouteKey::Id(InstaId(self.owner_id))),
    {
        Some(RouteKey::Id(InstaId(self.owner_id)))
    }
}

impl Job {
    /// A job routes by its own id.
    pub fn route_key(&self) -> (r: Option<RouteKey>)
        ensures
            r == Some(RouteKey::Id(InstaId(self.id))),
    {
        Some(RouteKey::Id(InstaId(self.id)))
    }

    /// A job is persisted under its id.
    pub fn primary_key(&self) -> (r: u64)
        ensures
            r == self.id,
    {
        self.id
    }

    /// Re-keys the job; every other field is untouched.
    pub fn set_primary_key(&mut self, value: u64)
        ensures
            *final(self) == (Job { id: value, ..*old(self) }),
    {
        self.id = value;
    }
}

/// A request to fetch one job, by id.
#[derive(Debug, Clone)]
pub struct JobGet {
    pub id: u64,
}

impl JobGet {
    /// A job fetch routes by the target job's opaque shard id.
    pub fn route_key(&self) -> (r: Option<RouteKey>)
        ensures
            r == Some(RouteKey::Id(InstaId(self.id))),
    {
        Some(RouteKey::Id(InstaId(self.id)))
    }
}

/// A request to fetch a chunk of one job's log, by job id.
#[derive(Debug, Clone)]
pub struct JobLogGet {
    pub id: u64,
    pub start: u64,
}

impl JobLogGet {
    /// A log fetch routes by the target job's opaque shard id.
    pub fn route_key(&self) -> (r: Option<RouteKey>)
        ensures
            r == Some(RouteKey::Id(InstaId(self.id))),
    {
        Some(RouteKey::Id(InstaId(self.id)))
    }
}

/// A request to list a project's jobs, paged by a line range.
#[derive(Debug, Clone)]
pub struct ProjectJobsGet {
    pub name: String,
    pub start: u64,
    pub stop: u64,
}

impl ProjectJobsGet {
    /// Routes by the project name.  This is a deliberate simplification:
    /// it is valid only while a single backend instance services this
    /// message class, and must be revisited if that class is ever
    /// sharded.
    pub fn route_key(&self) -> (r: Option<RouteKey>)
        ensures
            r matches Some(key) && key matches RouteKey::Str(text) && text@ == self.name@,
    {
        Some(RouteKey::Str(self.name.clone()))
    }

    /// The page window of this listing.
    pub fn get_range(&self) -> (r: [u64; 2])
        ensures
            r@ =~= seq![self.start, self.stop],
    {
        [self.start, self.stop]
    }
}

/// The ordered jobs of one project listing.
#[derive(Debug, Clone)]
pub struct ProjectJobsGetResponse {
    pub jobs: Vec<Job>,
}

// ---------------------------------------------------------------------------
// API projection
// ---------------------------------------------------------------------------

/// The canonical external rendering of a job.  Identifiers are decimal
/// strings — consumers with 53-bit-safe numeric types must never see a
/// raw 64-bit value — the state is its canonical token, and each
/// optional field is omitted entirely (never emitted as null) when
/// unset.
#[derive(Debug, Clone)]
pub struct JobApi {
    pub id: String,
    pub created_at: String,
    pub origin: String,
    pub name: String,
    pub version: Option<String>,
    pub release: Option<String>,
    pub build_started_at: Option<String>,
    pub build_finished_at: Option<String>,
    pub state: String,
    pub error: Option<String>,
    pub channel: Option<String>,
}

/// How a rendered job relates to the job itself: ids in decimal, origin
/// and name from the project reference (the package identifier may be
/// absent), version and release present exactly when a package
/// identifier is set (each empty when the identifier leaves it unset),
/// and the remaining optional fields carried over as they are.
pub open spec fn job_api_matches(job: Job, r: JobApi) -> bool {
    &&& r.id@ == dec_of(job.id as nat)
    &&& r.created_at@ == (match job.created_at {
        Some(t) => t@,
        None => Seq::<char>::empty(),
    })
    &&& r.origin@ == job.project.origin_name@
    &&& r.name@ == job.project.package_name@
    &&& r.version is Some <==> job.package_ident is Some
    &&& r.release is Some <==> job.package_ident is Some
    &&& job.package_ident matches Some(ident) ==> {
        &&& r.version->0@ == (match ident.version {
            Some(v) => v@,
            None => Seq::<char>::empty(),
        })
        &&& r.release->0@ == (match ident.release {
            Some(v) => v@,
            None => Seq::<char>::empty(),
        })
    }
    &&& r.build_started_at is Some <==> job.build_started_at is Some
    &&& job.build_started_at matches Some(t) ==> r.build_started_at->0@ == t@
    &&& r.build_finished_at is Some <==> job.build_finished_at is Some
    &&& job.build_finished_at matches Some(t) ==> r.build_finished_at->0@ == t@
    &&& r.state@ == job_state_token(job.state)
    &&& r.error is Some <==> job.error is Some
    &&& job.error matches Some(e) ==> r.error->0@ == e@
    &&& r.channel is Some <==> job.channel is Some
    &&& job.channel matches Some(c) ==> r.channel->0@ == c@
}

impl Job {
    /// Renders this job in its canonical external form.
    pub fn to_api(&self) -> (r: JobApi)
        ensures
            job_api_matches(*self, r),
    {
        let id = u64_to_dec(self.id);
        let created_at = match &self.created_at {
            Some(t) => t.clone(),
            None => String::new(),
        };
        let (version, release) = match &self.package_ident {
            Some(ident) => {
                let version = match &ident.version {
                    Some(v) => v.clone(),
                    None => String::new(),
                };
                let release = match &ident.release {
                    Some(v) => v.clone(),
                    None => String::new(),
                };
                (Some(version), Some(release))
            },
            None => (None, None),
        };
        let build_started_at = match &self.build_started_at {
            Some(t) => Some(t.clone()),
            None => None,
        };
        let build_finished_at = match &self.build_finished_at {
            Some(t) => Some(t.clone()),
            None => None,
        };
        let error = match &self.error {
            Some(e) => Some(e.clone()),
            None => None,
        };
        let channel = match &self.channel {
            Some(c) => Some(c.clone()),
            None => None,
        };
        JobApi {
            id,
            created_at,
            origin: self.project.origin_name.clone(),
            name: self.project.package_name.clone(),
            version,
            release,
            build_started_at,
            build_finished_at,
            state: self.state.as_token().to_owned(),
            error,
            channel,
        }
    }
}

/// The canonical external rendering of a project-jobs listing: one
/// field, the ordered jobs.
#[derive(Debug, Clone)]
pub struct ProjectJobsGetResponseApi {
    pub jobs: Vec<JobApi>,
}

impl ProjectJobsGetResponse {
    /// Renders the listing: each job in order, in its canonical form.
    pub fn to_api(&self) -> (r: ProjectJobsGetResponseApi)
        ensures
            r.jobs@.len() == self.jobs@.len(),
            forall|i: int|
                0 <= i < self.jobs@.len() ==> job_api_matches(self.jobs@[i], #[trigger] r.jobs@[i]),
    {
        let mut jobs: Vec<JobApi> = Vec::new();
        let n = self.jobs.len();
        let mut i: usize = 0;
        while i < n
            invariant
                n == self.jobs@.len(),
                i <= n,
                jobs@.len() == i,
                forall|j: int|
                    0 <= j < i ==> job_api_matches(self.jobs@[j], #[trigger] jobs@[j]),
            decreases n - i,
        {
            jobs.push(self.jobs[i].to_api());
            i += 1;
        }
        ProjectJobsGetResponseApi { jobs }
    }
}

} // verus!
