use jobsrv_protocol::graph::{
    JobGraphPackage, JobGraphPackageCreate, JobGraphPackagePreCreate,
    JobGraphPackageReverseDependenciesGet, JobGraphPackageStatsGet,
};
use jobsrv_protocol::group::{
    JobGroupAbort, JobGroupCancel, JobGroupGet, JobGroupOriginGet, JobGroupSpec,
};
use jobsrv_protocol::ident::PackageIdent;
use jobsrv_protocol::job::{Job, JobGet, JobLogGet, JobSpec, Project, ProjectJobsGet};
use jobsrv_protocol::routing::{InstaId, RouteKey};
use jobsrv_protocol::states::JobState;

fn project(origin: &str, name: &str) -> Project {
    Project {
        origin_name: origin.to_string(),
        package_name: name.to_string(),
    }
}

#[test]
fn job_get_routes_by_job_id() {
    let msg = JobGet { id: 42 };
    assert_eq!(msg.route_key(), Some(RouteKey::Id(InstaId(42))));
}

#[test]
fn job_log_get_routes_by_job_id() {
    let msg = JobLogGet { id: 42, start: 0 };
    assert_eq!(msg.route_key(), Some(RouteKey::Id(InstaId(42))));
}

#[test]
fn job_spec_routes_by_owner_id() {
    let msg = JobSpec {
        owner_id: 7,
        project: project("core", "hab"),
        channel: None,
    };
    assert_eq!(msg.route_key(), Some(RouteKey::Id(InstaId(7))));
}

#[test]
fn job_routes_by_its_id() {
    let mut job = Job {
        id: 0,
        owner_id: 7,
        state: JobState::Pending,
        project: project("core", "hab"),
        channel: None,
        package_ident: None,
        build_started_at: None,
        build_finished_at: None,
        error: None,
        created_at: None,
    };
    job.set_primary_key(99);
    assert_eq!(job.primary_key(), 99);
    assert_eq!(job.route_key(), Some(RouteKey::Id(InstaId(99))));
}

#[test]
fn project_jobs_get_routes_by_name() {
    let msg = ProjectJobsGet {
        name: "core/hab".to_string(),
        start: 0,
        stop: 49,
    };
    assert_eq!(msg.route_key(), Some(RouteKey::Str("core/hab".to_string())));
    assert_eq!(msg.get_range(), [0, 49]);
}

#[test]
fn job_group_spec_routes_by_origin_slash_package() {
    let msg = JobGroupSpec {
        origin: "core".to_string(),
        package: "hab".to_string(),
    };
    assert_eq!(msg.route_key(), Some(RouteKey::Str("core/hab".to_string())));
}

#[test]
fn job_group_messages_route_by_group_id_string() {
    assert_eq!(
        JobGroupGet { group_id: 1234 }.route_key(),
        Some(RouteKey::Str("1234".to_string()))
    );
    assert_eq!(
        JobGroupAbort { group_id: 1234 }.route_key(),
        Some(RouteKey::Str("1234".to_string()))
    );
    assert_eq!(
        JobGroupCancel { group_id: 1234 }.route_key(),
        Some(RouteKey::Str("1234".to_string()))
    );
}

#[test]
fn job_group_origin_get_routes_by_origin() {
    let msg = JobGroupOriginGet { origin: "core".to_string() };
    assert_eq!(msg.route_key(), Some(RouteKey::Str("core".to_string())));
}

#[test]
fn graph_package_messages_route_by_ident() {
    let pkg = JobGraphPackage {
        ident: "core/hab/0.23.0/20170511220008".to_string(),
        target: "x86_64-linux".to_string(),
        deps: vec![],
    };
    assert_eq!(
        pkg.route_key(),
        Some(RouteKey::Str("core/hab/0.23.0/20170511220008".to_string()))
    );
    let create = JobGraphPackageCreate {
        ident: "core/hab/0.23.0/20170511220008".to_string(),
        target: "x86_64-linux".to_string(),
        deps: vec![],
    };
    assert_eq!(
        create.route_key(),
        Some(RouteKey::Str("core/hab/0.23.0/20170511220008".to_string()))
    );
    let pre = JobGraphPackagePreCreate {
        ident: PackageIdent {
            origin: "core".to_string(),
            name: "hab".to_string(),
            version: Some("0.23.0".to_string()),
            release: Some("20170511220008".to_string()),
        },
        target: "x86_64-linux".to_string(),
        deps: vec![],
    };
    assert_eq!(
        pre.route_key(),
        Some(RouteKey::Str("core/hab/0.23.0/20170511220008".to_string()))
    );
}

#[test]
fn stats_and_reverse_dependency_queries_route_by_origin_material() {
    let stats = JobGraphPackageStatsGet { origin: "core".to_string() };
    assert_eq!(stats.route_key(), Some(RouteKey::Str("core".to_string())));
    let rdeps = JobGraphPackageReverseDependenciesGet {
        origin: "core".to_string(),
        name: "hab".to_string(),
    };
    assert_eq!(rdeps.route_key(), Some(RouteKey::Str("core/hab".to_string())));
}
