use uv_installer::dist::{CachedWheel, InstalledDistribution, ManifestEntry, Requirement, SourceIdentity};
use uv_installer::downloader::{settle, FetchError, FetchFailure};
use uv_installer::editable::{is_dynamic, ProjectTable, ResolvedEditable};
use uv_installer::in_flight::{InFlight, InFlightAction};
use uv_installer::installer::{commit_install, CompileError, LinkMode};
use uv_installer::plan::{plan, PlanningError};
use uv_installer::satisfies::{satisfies, MismatchReason, SatisfiesResult};
use uv_installer::site_packages::{SitePackages, SitePackagesDiagnostic};
use uv_installer::uninstall::{uninstall, UninstallError};
use uv_installer::version::Version;

fn v(r: &[u64]) -> Version {
    Version::new(r.to_vec())
}

fn req(name: &str, version: &[u64]) -> Requirement {
    Requirement { name: name.to_string(), version: Some(v(version)), source: SourceIdentity::Registry }
}

fn file(path: &str, digest: u64) -> ManifestEntry {
    ManifestEntry { path: path.to_string(), digest }
}

fn installed(name: &str, version: &[u64]) -> InstalledDistribution {
    InstalledDistribution {
        name: name.to_string(),
        version: v(version),
        source: SourceIdentity::Registry,
        metadata_readable: true,
        manifest: vec![file(&format!("{name}/__init__.py"), 7)],
    }
}

fn wheel(name: &str, version: &[u64]) -> CachedWheel {
    CachedWheel { name: name.to_string(), version: v(version), source: SourceIdentity::Registry }
}

#[test]
fn satisfied_when_version_matches() {
    assert_eq!(satisfies(&req("a", &[1, 0]), &installed("a", &[1, 0])), SatisfiesResult::Satisfied);
    assert_eq!(satisfies(&req("a", &[1, 0]), &installed("a", &[1, 0, 0])), SatisfiesResult::Satisfied);
}

#[test]
fn version_mismatch_is_reported() {
    assert_eq!(
        satisfies(&req("a", &[2, 0]), &installed("a", &[1, 0])),
        SatisfiesResult::Mismatch(MismatchReason::Version)
    );
}

#[test]
fn source_mismatch_is_reported() {
    let r = Requirement {
        name: "a".to_string(),
        version: None,
        source: SourceIdentity::DirectUrl { url: "https://example.org/a.whl".to_string() },
    };
    assert_eq!(satisfies(&r, &installed("a", &[1, 0])), SatisfiesResult::Mismatch(MismatchReason::Source));
    let mut d = installed("a", &[1, 0]);
    d.source = SourceIdentity::DirectUrl { url: "https://example.org/other.whl".to_string() };
    assert_eq!(satisfies(&r, &d), SatisfiesResult::Mismatch(MismatchReason::Source));
    d.source = SourceIdentity::DirectUrl { url: "https://example.org/a.whl".to_string() };
    assert_eq!(satisfies(&r, &d), SatisfiesResult::Satisfied);
}

#[test]
fn unreadable_metadata_is_unusable() {
    let mut d = installed("a", &[1, 0]);
    d.metadata_readable = false;
    assert_eq!(satisfies(&req("a", &[1, 0]), &d), SatisfiesResult::Unusable);
}

#[test]
fn changed_editable_source_is_out_of_date() {
    let path = "/src/e".to_string();
    let first = ResolvedEditable { path: path.clone(), fingerprint: 11, dynamic: true };
    let built = first.into_built("e".to_string(), v(&[0, 1]));
    let done = built.into_installed(vec![file("e.pth", 3)]);
    let again = ResolvedEditable { path: path.clone(), fingerprint: 12, dynamic: true };
    let rebuilt = again.into_built("e".to_string(), v(&[0, 1]));
    assert_eq!(satisfies(&done.built.requirement(), &done.installed), SatisfiesResult::Satisfied);
    assert_eq!(satisfies(&rebuilt.requirement(), &done.installed), SatisfiesResult::OutOfDate);
}

#[test]
fn plan_reuses_satisfied_install() {
    let sp = SitePackages::from_installed(vec![installed("a", &[1, 0])]);
    let p = plan(&vec![req("a", &[1, 0])], &sp, &vec![]).unwrap();
    assert_eq!(p.reuse, vec![0]);
    assert!(p.cached.is_empty() && p.remote.is_empty() && p.extraneous.is_empty());
}

#[test]
fn plan_replaces_other_version_and_executes() {
    let mut sp = SitePackages::from_installed(vec![installed("a", &[1, 0])]);
    let reqs = vec![req("a", &[2, 0])];
    let p = plan(&reqs, &sp, &vec![]).unwrap();
    assert!(p.reuse.is_empty() && p.cached.is_empty());
    assert_eq!(p.remote, vec![0]);
    assert_eq!(p.extraneous, vec![0]);
    let old = &sp.distributions[0];
    let u = uninstall(old, &vec![Some(7)]).unwrap();
    assert_eq!(u.remove, vec![0]);
    sp.forget(&"a".to_string());
    let report = commit_install(wheel("a", &[2, 0]), LinkMode::Hardlink, vec![file("a/__init__.py", 9)], vec![]);
    sp.add(report.installed);
    assert_eq!(sp.distributions.len(), 1);
    assert_eq!(sp.distributions[0].version.release, vec![2, 0]);
    let again = plan(&reqs, &sp, &vec![]).unwrap();
    assert_eq!(again.reuse, vec![0]);
    assert!(again.cached.is_empty() && again.remote.is_empty() && again.extraneous.is_empty());
}

#[test]
fn plan_uses_cache_when_present() {
    let sp = SitePackages::from_installed(vec![]);
    let p = plan(&vec![req("a", &[1, 0])], &sp, &vec![wheel("b", &[1, 0]), wheel("a", &[1, 0])]).unwrap();
    assert_eq!(p.cached, vec![0]);
    assert!(p.reuse.is_empty() && p.remote.is_empty() && p.extraneous.is_empty());
}

#[test]
fn plan_removes_undesired_and_partitions() {
    let sp = SitePackages::from_installed(vec![installed("a", &[1, 0]), installed("b", &[1, 0]), installed("c", &[3])]);
    let reqs = vec![req("a", &[1, 0]), req("c", &[4]), req("d", &[1]), req("e", &[1])];
    let p = plan(&reqs, &sp, &vec![wheel("e", &[1])]).unwrap();
    assert_eq!(p.reuse, vec![0]);
    assert_eq!(p.cached, vec![3]);
    assert_eq!(p.remote, vec![1, 2]);
    assert_eq!(p.extraneous, vec![1, 2]);
}

#[test]
fn plan_rejects_duplicate_names() {
    let sp = SitePackages::from_installed(vec![]);
    match plan(&vec![req("a", &[1]), req("b", &[1]), req("a", &[2])], &sp, &vec![]) {
        Err(PlanningError::DuplicateRequirement { name }) => assert_eq!(name, "a"),
        Ok(_) => panic!("duplicate requirement names were accepted"),
    }
}

#[test]
fn scan_keeps_first_and_reports_anomalies() {
    let mut broken = installed("c", &[1]);
    broken.metadata_readable = false;
    let sp = SitePackages::from_installed(vec![installed("a", &[1]), installed("a", &[2]), broken]);
    assert_eq!(sp.distributions.len(), 2);
    assert_eq!(sp.distributions[0].version.release, vec![1]);
    assert_eq!(sp.diagnostics.len(), 2);
    assert!(matches!(&sp.diagnostics[0], SitePackagesDiagnostic::DuplicatePackage { name } if name == "a"));
    assert!(matches!(&sp.diagnostics[1], SitePackagesDiagnostic::MetadataUnavailable { name } if name == "c"));
}

#[test]
fn in_flight_deduplicates_requests() {
    let mut f = InFlight::new();
    let id = "a==1.0".to_string();
    let other = "b==1.0".to_string();
    assert_eq!(f.request(&id), InFlightAction::Perform);
    assert_eq!(f.request(&id), InFlightAction::Await);
    assert_eq!(f.request(&other), InFlightAction::Perform);
    assert_eq!(f.request(&id), InFlightAction::Await);
    assert_eq!(f.complete(&id), 3);
    assert_eq!(f.complete(&id), 0);
    assert_eq!(f.request(&id), InFlightAction::Perform);
    assert_eq!(f.complete(&other), 1);
}

#[test]
fn uninstall_skips_modified_files() {
    let mut d = installed("a", &[1]);
    d.manifest = vec![file("a/x.py", 1), file("a/y.py", 2), file("a/z.py", 3)];
    let u = uninstall(&d, &vec![Some(1), Some(5), None]).unwrap();
    assert_eq!(u.remove, vec![0]);
    assert_eq!(u.modified, vec![1]);
    assert_eq!(u.missing, vec![2]);
}

#[test]
fn uninstall_without_manifest_fails() {
    let mut d = installed("a", &[1]);
    d.manifest = vec![];
    match uninstall(&d, &vec![]) {
        Err(UninstallError::MissingManifest { name }) => assert_eq!(name, "a"),
        Ok(_) => panic!("uninstall without a manifest succeeded"),
    }
}

#[test]
fn settle_aggregates_failures() {
    let ok = settle(vec![Ok(wheel("a", &[1])), Ok(wheel("b", &[2]))]).unwrap();
    assert_eq!(ok.len(), 2);
    assert_eq!(ok[1].name, "b");
    let err = settle(vec![
        Err(FetchError { name: "a".to_string(), failure: FetchFailure::Network }),
        Ok(wheel("b", &[2])),
        Err(FetchError { name: "c".to_string(), failure: FetchFailure::Build }),
    ])
    .unwrap_err();
    assert_eq!(err.len(), 2);
    assert_eq!(err[0].name, "a");
    assert_eq!(err[1].failure, FetchFailure::Build);
}

#[test]
fn dynamic_metadata_detection() {
    assert!(is_dynamic(&None));
    assert!(!is_dynamic(&Some(ProjectTable { dynamic: None })));
    assert!(!is_dynamic(&Some(ProjectTable { dynamic: Some(vec![]) })));
    assert!(is_dynamic(&Some(ProjectTable { dynamic: Some(vec!["version".to_string()]) })));
}

#[test]
fn install_record_keeps_compile_errors() {
    let report = commit_install(
        wheel("a", &[1]),
        LinkMode::Copy,
        vec![file("a/__init__.py", 4)],
        vec![CompileError { path: "a/bad.py".to_string() }],
    );
    assert!(report.installed.metadata_readable);
    assert_eq!(report.link_mode, LinkMode::Copy);
    assert_eq!(report.installed.manifest[0].digest, 4);
    assert_eq!(report.compile_errors[0].path, "a/bad.py");
}
