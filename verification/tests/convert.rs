use jobsrv_protocol::graph::{JobGraphPackage, JobGraphPackageCreate, JobGraphPackagePreCreate, OriginPackage};
use jobsrv_protocol::ident::PackageIdent;

fn full_ident() -> PackageIdent {
    PackageIdent {
        origin: "core".to_string(),
        name: "hab".to_string(),
        version: Some("0.23.0".to_string()),
        release: Some("20170511220008".to_string()),
    }
}

#[test]
fn ident_formatter_renders_present_parts() {
    assert_eq!(full_ident().to_ident_string(), "core/hab/0.23.0/20170511220008");
    let three = PackageIdent {
        origin: "core".to_string(),
        name: "hab".to_string(),
        version: Some("0.23.0".to_string()),
        release: None,
    };
    assert_eq!(three.to_ident_string(), "core/hab/0.23.0");
    let two = PackageIdent {
        origin: "core".to_string(),
        name: "hab".to_string(),
        version: None,
        release: None,
    };
    assert_eq!(two.to_ident_string(), "core/hab");
}

#[test]
fn origin_package_renders_through_canonical_formatter() {
    let dep = PackageIdent {
        origin: "core".to_string(),
        name: "glibc".to_string(),
        version: Some("2.22".to_string()),
        release: Some("20170513201042".to_string()),
    };
    let source = OriginPackage {
        ident: full_ident(),
        target: "x86_64-linux".to_string(),
        deps: vec![dep.clone()],
    };
    let pkg = JobGraphPackage::from_origin_package(&source);
    assert_eq!(pkg.ident, "core/hab/0.23.0/20170511220008");
    assert_eq!(pkg.target, "x86_64-linux");
    assert_eq!(pkg.deps, vec!["core/glibc/2.22/20170513201042".to_string()]);
}

#[test]
fn pre_create_renders_like_origin_package() {
    let pre = JobGraphPackagePreCreate {
        ident: full_ident(),
        target: "x86_64-linux".to_string(),
        deps: vec![
            PackageIdent {
                origin: "core".to_string(),
                name: "glibc".to_string(),
                version: None,
                release: None,
            },
        ],
    };
    let pkg = pre.into_package();
    assert_eq!(pkg.ident, "core/hab/0.23.0/20170511220008");
    assert_eq!(pkg.target, "x86_64-linux");
    assert_eq!(pkg.deps, vec!["core/glibc".to_string()]);
}

#[test]
fn two_hop_conversion_matches_direct_formatting() {
    let dep_a = PackageIdent {
        origin: "core".to_string(),
        name: "glibc".to_string(),
        version: Some("2.22".to_string()),
        release: Some("20170513201042".to_string()),
    };
    let dep_b = PackageIdent {
        origin: "core".to_string(),
        name: "gcc-libs".to_string(),
        version: Some("5.2.0".to_string()),
        release: None,
    };
    let source = OriginPackage {
        ident: full_ident(),
        target: "x86_64-linux".to_string(),
        deps: vec![dep_a.clone(), dep_b.clone()],
    };
    let pkg = JobGraphPackage::from_origin_package(&source);
    let create = JobGraphPackageCreate::from_package(&pkg);
    // the two hops give exactly the canonical formatter's output
    assert_eq!(create.ident, source.ident.to_ident_string());
    assert_eq!(create.target, "x86_64-linux");
    assert_eq!(
        create.deps,
        vec![dep_a.to_ident_string(), dep_b.to_ident_string()]
    );
}
