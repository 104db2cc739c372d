use jobsrv_protocol::graph::{JobGraphPackageReverseDependencies, JobGraphPackageStats};
use jobsrv_protocol::group::{JobGroup, JobGroupProject};
use jobsrv_protocol::ident::PackageIdent;
use jobsrv_protocol::job::{Job, JobSpec, Project, ProjectJobsGetResponse};
use jobsrv_protocol::log::JobLog;
use jobsrv_protocol::states::{JobGroupProjectState, JobGroupState, JobState};

fn base_job() -> Job {
    Job {
        id: 0,
        owner_id: 7,
        state: JobState::Pending,
        project: Project {
            origin_name: "core".to_string(),
            package_name: "hab".to_string(),
        },
        channel: None,
        package_ident: None,
        build_started_at: None,
        build_finished_at: None,
        error: None,
        created_at: None,
    }
}

#[test]
fn job_id_projects_as_decimal_string_at_max() {
    let mut job = base_job();
    job.id = 18446744073709551615;
    let api = job.to_api();
    assert_eq!(api.id, "18446744073709551615");
}

#[test]
fn job_without_package_ident_omits_version_and_release() {
    let job = base_job();
    let api = job.to_api();
    assert_eq!(api.version, None);
    assert_eq!(api.release, None);
    assert_eq!(api.build_started_at, None);
    assert_eq!(api.build_finished_at, None);
    assert_eq!(api.error, None);
    assert_eq!(api.channel, None);
    assert_eq!(api.origin, "core");
    assert_eq!(api.name, "hab");
    assert_eq!(api.state, "Pending");
    assert_eq!(api.created_at, "");
}

#[test]
fn job_with_error_includes_it() {
    let mut job = base_job();
    job.state = JobState::Failed;
    job.error = Some("build failed".to_string());
    let api = job.to_api();
    assert_eq!(api.error, Some("build failed".to_string()));
    assert_eq!(api.state, "Failed");
}

#[test]
fn complete_job_projects_version_and_release_from_ident() {
    let mut job = base_job();
    job.id = 5;
    job.state = JobState::Complete;
    job.package_ident = Some(PackageIdent {
        origin: "core".to_string(),
        name: "hab".to_string(),
        version: Some("0.23.0".to_string()),
        release: Some("20170511220008".to_string()),
    });
    job.build_started_at = Some("2017-05-11T22:00:00Z".to_string());
    job.build_finished_at = Some("2017-05-11T22:05:00Z".to_string());
    job.channel = Some("unstable".to_string());
    job.created_at = Some("2017-05-11T21:00:00Z".to_string());
    let api = job.to_api();
    assert_eq!(api.id, "5");
    assert_eq!(api.version, Some("0.23.0".to_string()));
    assert_eq!(api.release, Some("20170511220008".to_string()));
    assert_eq!(api.build_started_at, Some("2017-05-11T22:00:00Z".to_string()));
    assert_eq!(api.build_finished_at, Some("2017-05-11T22:05:00Z".to_string()));
    assert_eq!(api.channel, Some("unstable".to_string()));
    assert_eq!(api.created_at, "2017-05-11T21:00:00Z");
    assert_eq!(api.state, "Complete");
    // origin and name always come from the project reference
    assert_eq!(api.origin, "core");
    assert_eq!(api.name, "hab");
}

#[test]
fn job_from_spec_starts_pending_without_package() {
    let spec = JobSpec {
        owner_id: 23,
        project: Project {
            origin_name: "core".to_string(),
            package_name: "hab".to_string(),
        },
        channel: Some("stable".to_string()),
    };
    let job = Job::from(spec);
    assert_eq!(job.id, 0);
    assert_eq!(job.owner_id, 23);
    assert_eq!(job.state, JobState::Pending);
    assert!(job.package_ident.is_none());
    assert_eq!(job.channel, Some("stable".to_string()));
    assert_eq!(job.project.origin_name, "core");

    let without_channel = JobSpec {
        owner_id: 23,
        project: Project {
            origin_name: "core".to_string(),
            package_name: "hab".to_string(),
        },
        channel: None,
    };
    let job = Job::from(without_channel);
    assert!(job.channel.is_none());
}

#[test]
fn project_jobs_response_projects_each_job_in_order() {
    let mut second = base_job();
    second.id = 2;
    second.state = JobState::Dispatched;
    let response = ProjectJobsGetResponse { jobs: vec![base_job(), second] };
    let api = response.to_api();
    assert_eq!(api.jobs.len(), 2);
    assert_eq!(api.jobs[0].id, "0");
    assert_eq!(api.jobs[0].state, "Pending");
    assert_eq!(api.jobs[1].id, "2");
    assert_eq!(api.jobs[1].state, "Dispatched");
}

#[test]
fn job_group_projects_all_fields() {
    let group = JobGroup {
        id: 123456789,
        state: JobGroupState::GroupDispatching,
        projects: vec![
            JobGroupProject {
                name: "core/hab".to_string(),
                ident: "core/hab/0.23.0/20170511220008".to_string(),
                state: JobGroupProjectState::InProgress,
                job_id: 42,
            },
            JobGroupProject {
                name: "core/hab-backline".to_string(),
                ident: "".to_string(),
                state: JobGroupProjectState::NotStarted,
                job_id: 0,
            },
        ],
        created_at: "2017-05-11T21:00:00Z".to_string(),
        project_name: "core/hab".to_string(),
    };
    let api = group.to_api();
    assert_eq!(api.id, "123456789");
    assert_eq!(api.state, "Dispatching");
    assert_eq!(api.created_at, "2017-05-11T21:00:00Z");
    assert_eq!(api.project_name, "core/hab");
    assert_eq!(api.projects.len(), 2);
    assert_eq!(api.projects[0].name, "core/hab");
    assert_eq!(api.projects[0].ident, "core/hab/0.23.0/20170511220008");
    assert_eq!(api.projects[0].state, "InProgress");
    assert_eq!(api.projects[0].job_id, "42");
    // a not-yet-dispatched project still renders its zero job id
    assert_eq!(api.projects[1].state, "NotStarted");
    assert_eq!(api.projects[1].job_id, "0");
}

#[test]
fn job_log_projection_sanitizes_content() {
    let log = JobLog {
        start: 0,
        stop: 2,
        content: vec![
            "\u{1b}[1;33m» Importing origin key\u{1b}[0m".to_string(),
            "plain line".to_string(),
        ],
        is_complete: true,
    };
    let api = log.to_api();
    assert_eq!(api.start, 0);
    assert_eq!(api.stop, 2);
    assert!(api.is_complete);
    assert_eq!(api.content, vec!["» Importing origin key".to_string(), "plain line".to_string()]);
}

#[test]
fn stats_projection_copies_counts() {
    let stats = JobGraphPackageStats { plans: 10, builds: 7, unique_packages: 4 };
    let api = stats.to_api();
    assert_eq!(api.plans, 10);
    assert_eq!(api.builds, 7);
    assert_eq!(api.unique_packages, 4);
}

#[test]
fn reverse_dependencies_projection_keeps_order() {
    let rdeps = JobGraphPackageReverseDependencies {
        origin: "core".to_string(),
        name: "glibc".to_string(),
        rdeps: vec!["core/gcc".to_string(), "core/hab".to_string()],
    };
    let api = rdeps.to_api();
    assert_eq!(api.origin, "core");
    assert_eq!(api.name, "glibc");
    assert_eq!(api.rdeps, vec!["core/gcc".to_string(), "core/hab".to_string()]);
}
