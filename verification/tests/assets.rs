use spa_server::asset::{
    found_after_failure, found_entry, EntryKind, Found, LookFailure, Pending, Resolution,
    ResolveError, ResolvedAsset, Stage, StaticSite,
};
use spa_server::startup::establish;

fn file(path: &str) -> Found {
    Found::File { canonical: path.to_string() }
}

fn directory(path: &str) -> Found {
    Found::Directory { canonical: path.to_string() }
}

fn site() -> StaticSite {
    establish(directory("/srv/www"), file("/srv/www/index.html")).expect("a directory and a file")
}

fn pending(resolution: Resolution) -> Pending {
    match resolution {
        Resolution::Probe(pending) => pending,
        other => panic!("expected a look to be asked for, got {:?}", other),
    }
}

/// Resolves a path against a filesystem given as a list of entries.
fn resolve_against(site: &StaticSite, entries: &[(&str, Found)], requested: &str) -> Result<ResolvedAsset, ResolveError> {
    let mut resolution = site.resolve(requested);
    let mut looks = 0;
    loop {
        match resolution {
            Resolution::Resolved(asset) => return Ok(asset),
            Resolution::Failed(error) => return Err(error),
            Resolution::Probe(pending) => {
                looks += 1;
                assert!(looks <= 2);
                let found = entries
                    .iter()
                    .find(|(path, _)| *path == pending.path())
                    .map(|(_, found)| found.clone())
                    .unwrap_or(Found::Absent);
                resolution = site.resume(pending, found);
            }
        }
    }
}

#[test]
fn a_name_that_leads_nowhere_is_an_absence() {
    assert_eq!(found_after_failure(LookFailure::NotFound, "no such file".to_string()), Found::Absent);
    assert_eq!(
        found_after_failure(LookFailure::NotADirectory, "not a directory".to_string()),
        Found::Absent
    );
}

#[test]
fn any_other_failed_look_is_a_failure_with_its_detail() {
    assert_eq!(
        found_after_failure(LookFailure::Other, "permission denied".to_string()),
        Found::Failed { detail: "permission denied".to_string() }
    );
}

#[test]
fn an_entry_counts_as_what_it_is() {
    assert_eq!(found_entry(EntryKind::File, "/srv/www/a".to_string()), file("/srv/www/a"));
    assert_eq!(found_entry(EntryKind::Directory, "/srv/www".to_string()), directory("/srv/www"));
    assert_eq!(
        found_entry(EntryKind::Other, "/srv/www/socket".to_string()),
        Found::Failed { detail: "neither a file nor a directory".to_string() }
    );
}

#[test]
fn site_keeps_its_root_and_fallback() {
    let site = site();
    assert_eq!(site.root(), "/srv/www");
    assert_eq!(site.fallback(), "/srv/www/index.html");
    assert_eq!(site.clone(), site);
}

#[test]
fn resolve_asks_for_a_look_beneath_the_root() {
    let first = pending(site().resolve("/assets/app.js"));
    assert_eq!(first.path(), "/srv/www/assets/app.js");
    assert_eq!(first.stage(), Stage::Direct);
}

#[test]
fn resolve_reads_the_path_lexically() {
    assert_eq!(pending(site().resolve("/")).path(), "/srv/www");
    assert_eq!(pending(site().resolve("")).path(), "/srv/www");
    assert_eq!(pending(site().resolve("//a/./b/../c")).path(), "/srv/www/a/c");
    assert_eq!(pending(site().resolve("/dashboard/settings")).path(), "/srv/www/dashboard/settings");
}

#[test]
fn resolve_denies_traversal_before_any_look() {
    assert_eq!(site().resolve("/../../etc/passwd"), Resolution::Failed(ResolveError::PathTraversalDenied));
    assert_eq!(site().resolve("/a/../../srv/www/index.html"), Resolution::Failed(ResolveError::PathTraversalDenied));
    assert_eq!(site().resolve(".."), Resolution::Failed(ResolveError::PathTraversalDenied));
}

#[test]
fn resolve_raw_decodes_before_it_reads() {
    assert_eq!(pending(site().resolve_raw("/assets/my%20file.txt")).path(), "/srv/www/assets/my file.txt");
    assert_eq!(pending(site().resolve_raw("/assets%2Fapp.js")).path(), "/srv/www/assets/app.js");
    assert_eq!(pending(site().resolve_raw("/caf%C3%A9")).path(), "/srv/www/caf\u{e9}");
    assert_eq!(pending(site().resolve_raw("/a%2fb%2Fc")).path(), "/srv/www/a/b/c");
    assert_eq!(pending(site().resolve_raw("/plain/path.txt")).path(), "/srv/www/plain/path.txt");
}

#[test]
fn resolve_raw_leaves_a_percent_that_begins_no_escape() {
    assert_eq!(pending(site().resolve_raw("/100%")).path(), "/srv/www/100%");
    assert_eq!(pending(site().resolve_raw("/50%25")).path(), "/srv/www/50%");
    assert_eq!(pending(site().resolve_raw("/a%zzb")).path(), "/srv/www/a%zzb");
    assert_eq!(pending(site().resolve_raw("/a%4")).path(), "/srv/www/a%4");
}

#[test]
fn resolve_raw_denies_a_traversal_that_hides_in_escapes() {
    let denied = Resolution::Failed(ResolveError::PathTraversalDenied);
    assert_eq!(site().resolve_raw("/%2e%2e/%2e%2e/etc/passwd"), denied);
    assert_eq!(site().resolve_raw("/..%2F..%2Fetc/passwd"), denied);
    assert_eq!(site().resolve_raw("/%2E%2E"), denied);
    assert_eq!(site().resolve_raw("/../../etc/passwd"), denied);
}

#[test]
fn resolve_raw_falls_back_where_the_path_is_no_text() {
    let fallback = Resolution::Resolved(ResolvedAsset::Fallback("/srv/www/index.html".to_string()));
    assert_eq!(site().resolve_raw("/%ff"), fallback);
    assert_eq!(site().resolve_raw("/a/%C3"), fallback);
}

#[test]
fn resume_settles_on_a_file_that_was_found() {
    let site = site();
    let first = pending(site.resolve("/assets/app.js"));
    assert_eq!(
        site.resume(first, file("/srv/www/assets/app.js")),
        Resolution::Resolved(ResolvedAsset::File("/srv/www/assets/app.js".to_string()))
    );
}

#[test]
fn resume_serves_the_canonical_path() {
    let site = site();
    let first = pending(site.resolve("/current/app.js"));
    assert_eq!(
        site.resume(first, file("/srv/www/releases/7/app.js")),
        Resolution::Resolved(ResolvedAsset::File("/srv/www/releases/7/app.js".to_string()))
    );
}

#[test]
fn resume_denies_a_file_whose_links_lead_out_of_the_root() {
    let site = site();
    let first = pending(site.resolve("/passwd"));
    assert_eq!(site.resume(first, file("/etc/passwd")), Resolution::Failed(ResolveError::PathTraversalDenied));
    let second = pending(site.resolve("/neighbour"));
    assert_eq!(site.resume(second, file("/srv/www2/neighbour")), Resolution::Failed(ResolveError::PathTraversalDenied));
}

#[test]
fn resume_looks_for_the_index_of_a_directory() {
    let site = site();
    let first = pending(site.resolve("/docs"));
    let second = pending(site.resume(first, directory("/srv/www/docs")));
    assert_eq!(second.path(), "/srv/www/docs/index.html");
    assert_eq!(second.stage(), Stage::Index);
    assert_eq!(
        site.resume(second, file("/srv/www/docs/index.html")),
        Resolution::Resolved(ResolvedAsset::File("/srv/www/docs/index.html".to_string()))
    );
}

#[test]
fn resume_falls_back_where_a_directory_has_no_index() {
    let site = site();
    let fallback = Resolution::Resolved(ResolvedAsset::Fallback("/srv/www/index.html".to_string()));
    let second = pending(site.resume(pending(site.resolve("/docs")), directory("/srv/www/docs")));
    assert_eq!(site.resume(second, Found::Absent), fallback);
    let second = pending(site.resume(pending(site.resolve("/docs")), directory("/srv/www/docs")));
    assert_eq!(site.resume(second, directory("/srv/www/docs/index.html")), fallback);
}

#[test]
fn resume_falls_back_where_nothing_is_found() {
    let site = site();
    let first = pending(site.resolve("/dashboard/settings"));
    assert_eq!(
        site.resume(first, Found::Absent),
        Resolution::Resolved(ResolvedAsset::Fallback("/srv/www/index.html".to_string()))
    );
}

#[test]
fn resume_reports_a_failing_filesystem() {
    let site = site();
    let first = pending(site.resolve("/secret"));
    assert_eq!(
        site.resume(first, Found::Failed { detail: "permission denied".to_string() }),
        Resolution::Failed(ResolveError::IoError("permission denied".to_string()))
    );
    let second = pending(site.resume(pending(site.resolve("/docs")), directory("/srv/www/docs")));
    assert_eq!(
        site.resume(second, Found::Failed { detail: "input/output error".to_string() }),
        Resolution::Failed(ResolveError::IoError("input/output error".to_string()))
    );
}

#[test]
fn resume_reports_a_filesystem_that_does_not_answer() {
    let site = site();
    let first = pending(site.resolve("/slow"));
    assert_eq!(
        site.resume(first, Found::TimedOut),
        Resolution::Failed(ResolveError::IoError("the filesystem did not answer in time".to_string()))
    );
}

#[test]
fn a_file_that_exists_resolves_to_itself() {
    let site = site();
    let entries = [
        ("/srv/www", directory("/srv/www")),
        ("/srv/www/index.html", file("/srv/www/index.html")),
        ("/srv/www/assets", directory("/srv/www/assets")),
        ("/srv/www/assets/app.js", file("/srv/www/assets/app.js")),
    ];
    assert_eq!(
        resolve_against(&site, &entries, "/assets/app.js"),
        Ok(ResolvedAsset::File("/srv/www/assets/app.js".to_string()))
    );
    assert_eq!(
        resolve_against(&site, &entries, "/"),
        Ok(ResolvedAsset::File("/srv/www/index.html".to_string()))
    );
    assert_eq!(
        resolve_against(&site, &entries, "/assets/../index.html"),
        Ok(ResolvedAsset::File("/srv/www/index.html".to_string()))
    );
}

#[test]
fn a_path_that_names_nothing_resolves_to_the_fallback_every_time() {
    let site = site();
    let entries = [
        ("/srv/www", directory("/srv/www")),
        ("/srv/www/index.html", file("/srv/www/index.html")),
        ("/srv/www/assets", directory("/srv/www/assets")),
    ];
    let fallback = Ok(ResolvedAsset::Fallback("/srv/www/index.html".to_string()));
    assert_eq!(resolve_against(&site, &entries, "/dashboard/settings"), fallback);
    assert_eq!(resolve_against(&site, &entries, "/dashboard/settings"), fallback);
    assert_eq!(resolve_against(&site, &entries, "/assets"), fallback);
    assert_eq!(resolve_against(&site, &entries, "/assets/missing.js"), fallback);
}

#[test]
fn a_traversal_never_reaches_a_file_outside_the_root() {
    let site = site();
    let entries = [
        ("/srv/www", directory("/srv/www")),
        ("/srv/www/index.html", file("/srv/www/index.html")),
        ("/etc/passwd", file("/etc/passwd")),
        ("/srv/www/../../etc/passwd", file("/etc/passwd")),
    ];
    assert_eq!(resolve_against(&site, &entries, "/../../etc/passwd"), Err(ResolveError::PathTraversalDenied));
    assert_eq!(resolve_against(&site, &entries, "/a/../../../etc/passwd"), Err(ResolveError::PathTraversalDenied));
}

#[test]
fn found_and_results_clone_to_equal_values() {
    let found = file("/srv/www/a");
    assert_eq!(found.clone(), found);
    let failed = Found::Failed { detail: "broken".to_string() };
    assert_eq!(failed.clone(), failed);
    let asset = ResolvedAsset::Fallback("/srv/www/index.html".to_string());
    assert_eq!(asset.clone(), asset);
    let error = ResolveError::IoError("broken".to_string());
    assert_eq!(error.clone(), error);
}
