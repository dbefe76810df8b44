//! The routine, run against a data directory held in memory.

use version_gate::{Action, CacheDir, Outcome, Reconciler, Warning};

/// A data directory in memory, with the operations it is told to refuse.
struct FakeDir {
    exists: bool,
    marker: Option<String>,
    webview: Option<Vec<&'static str>>,
    cache: Option<Vec<&'static str>>,
    deny_read: bool,
    deny_remove_webview: bool,
    deny_remove_cache: bool,
    deny_create: bool,
    deny_write: bool,
}

fn dir_with(marker: Option<&str>, webview: bool, cache: bool) -> FakeDir {
    FakeDir {
        exists: true,
        marker: marker.map(|m| m.to_string()),
        webview: if webview { Some(vec!["Local Storage", "IndexedDB"]) } else { None },
        cache: if cache { Some(vec!["index", "data_0"]) } else { None },
        deny_read: false,
        deny_remove_webview: false,
        deny_remove_cache: false,
        deny_create: false,
        deny_write: false,
    }
}

fn missing_dir() -> FakeDir {
    let mut dir = dir_with(None, false, false);
    dir.exists = false;
    dir
}

fn denied() -> Outcome {
    Outcome::Failed("permission denied".to_string())
}

fn perform(dir: &mut FakeDir, action: &Action) -> Outcome {
    match action {
        Action::ReadMarker => {
            if dir.deny_read {
                denied()
            } else {
                match &dir.marker {
                    Some(text) => Outcome::Text(text.clone()),
                    None => Outcome::Absent,
                }
            }
        }
        Action::ProbeDir(CacheDir::Webview) => {
            if dir.webview.is_some() { Outcome::Present } else { Outcome::Absent }
        }
        Action::ProbeDir(CacheDir::Cache) => {
            if dir.cache.is_some() { Outcome::Present } else { Outcome::Absent }
        }
        Action::RemoveDir(CacheDir::Webview) => {
            if dir.deny_remove_webview || dir.webview.is_none() {
                denied()
            } else {
                dir.webview = None;
                Outcome::Done
            }
        }
        Action::RemoveDir(CacheDir::Cache) => {
            if dir.deny_remove_cache || dir.cache.is_none() {
                denied()
            } else {
                dir.cache = None;
                Outcome::Done
            }
        }
        Action::CreateDataDir => {
            if dir.deny_create {
                denied()
            } else {
                dir.exists = true;
                Outcome::Done
            }
        }
        Action::WriteMarker(text) => {
            if dir.deny_write || !dir.exists {
                denied()
            } else {
                dir.marker = Some(text.clone());
                Outcome::Done
            }
        }
    }
}

/// Drives the routine to its end; returns the actions asked for and the
/// warnings collected.
fn reconcile(dir: &mut FakeDir, current: &str) -> (Vec<Action>, Vec<Warning>) {
    let mut routine = Reconciler::new(current);
    let mut actions = Vec::new();
    while let Some(action) = routine.pending() {
        assert!(actions.len() < 8, "the routine does not come to an end");
        let outcome = perform(dir, &action);
        actions.push(action);
        routine.advance(outcome);
    }
    (actions, routine.warnings().clone())
}

fn mutates(action: &Action) -> bool {
    matches!(action, Action::RemoveDir(_) | Action::CreateDataDir | Action::WriteMarker(_))
}

#[test]
fn fresh_install_creates_marker() {
    let mut dir = dir_with(None, false, false);
    let (actions, warnings) = reconcile(&mut dir, "2.0.0");
    assert_eq!(warnings, vec![]);
    assert_eq!(dir.marker, Some("2.0.0".to_string()));
    assert!(dir.webview.is_none());
    assert!(dir.cache.is_none());
    assert_eq!(
        actions,
        vec![
            Action::ReadMarker,
            Action::ProbeDir(CacheDir::Webview),
            Action::ProbeDir(CacheDir::Cache),
            Action::CreateDataDir,
            Action::WriteMarker("2.0.0".to_string()),
        ]
    );
}

#[test]
fn marker_with_newline_is_a_match() {
    let mut dir = dir_with(Some("2.0.0\n"), true, true);
    let (actions, warnings) = reconcile(&mut dir, "2.0.0");
    assert_eq!(actions, vec![Action::ReadMarker]);
    assert_eq!(warnings, vec![]);
    assert_eq!(dir.marker, Some("2.0.0\n".to_string()));
    assert_eq!(dir.webview, Some(vec!["Local Storage", "IndexedDB"]));
    assert_eq!(dir.cache, Some(vec!["index", "data_0"]));
}

#[test]
fn other_version_clears_both_caches() {
    let mut dir = dir_with(Some("1.9.0"), true, true);
    let (actions, warnings) = reconcile(&mut dir, "2.0.0");
    assert_eq!(warnings, vec![]);
    assert!(dir.webview.is_none());
    assert!(dir.cache.is_none());
    assert_eq!(dir.marker, Some("2.0.0".to_string()));
    assert_eq!(
        actions,
        vec![
            Action::ReadMarker,
            Action::ProbeDir(CacheDir::Webview),
            Action::RemoveDir(CacheDir::Webview),
            Action::ProbeDir(CacheDir::Cache),
            Action::RemoveDir(CacheDir::Cache),
            Action::CreateDataDir,
            Action::WriteMarker("2.0.0".to_string()),
        ]
    );
}

#[test]
fn same_version_changes_nothing() {
    let mut dir = dir_with(Some("2.0.0"), true, false);
    let (actions, warnings) = reconcile(&mut dir, "2.0.0");
    assert!(actions.iter().all(|a| !mutates(a)));
    assert_eq!(actions, vec![Action::ReadMarker]);
    assert_eq!(warnings, vec![]);
    assert_eq!(dir.marker, Some("2.0.0".to_string()));
    assert!(dir.webview.is_some());
    assert!(dir.cache.is_none());
}

#[test]
fn empty_marker_invalidates() {
    let mut dir = dir_with(Some(""), false, true);
    let (_, warnings) = reconcile(&mut dir, "2.0.0");
    assert_eq!(warnings, vec![]);
    assert_eq!(dir.marker, Some("2.0.0".to_string()));
    assert!(dir.cache.is_none());
}

#[test]
fn blank_marker_invalidates() {
    let mut dir = dir_with(Some(" \t\r\n"), true, false);
    let (_, warnings) = reconcile(&mut dir, "2.0.0");
    assert_eq!(warnings, vec![]);
    assert_eq!(dir.marker, Some("2.0.0".to_string()));
    assert!(dir.webview.is_none());
}

#[test]
fn missing_directory_is_created() {
    let mut dir = missing_dir();
    let (actions, warnings) = reconcile(&mut dir, "2.0.0");
    assert_eq!(warnings, vec![]);
    assert!(dir.exists);
    assert_eq!(dir.marker, Some("2.0.0".to_string()));
    assert_eq!(actions.len(), 5);
}

#[test]
fn marker_is_written_after_the_deletions() {
    let mut dir = dir_with(Some("1.9.0"), true, true);
    let (actions, _) = reconcile(&mut dir, "2.0.0");
    let write = actions.iter().position(|a| matches!(a, Action::WriteMarker(_))).unwrap();
    let create = actions.iter().position(|a| *a == Action::CreateDataDir).unwrap();
    let last_removal = actions.iter().rposition(|a| matches!(a, Action::RemoveDir(_))).unwrap();
    assert!(last_removal < create);
    assert!(create < write);
    assert_eq!(write, actions.len() - 1);
}

#[test]
fn second_run_changes_nothing() {
    let mut dir = dir_with(Some("1.9.0"), true, true);
    reconcile(&mut dir, "2.0.0");
    dir.webview = Some(vec!["Local Storage"]);
    let (actions, warnings) = reconcile(&mut dir, "2.0.0");
    assert_eq!(actions, vec![Action::ReadMarker]);
    assert_eq!(warnings, vec![]);
    assert_eq!(dir.marker, Some("2.0.0".to_string()));
    assert_eq!(dir.webview, Some(vec!["Local Storage"]));
}

#[test]
fn second_run_after_failed_deletion_changes_nothing() {
    let mut dir = dir_with(None, true, true);
    dir.deny_remove_cache = true;
    let (_, warnings) = reconcile(&mut dir, "2.0.0");
    assert_eq!(warnings.len(), 1);
    let (actions, warnings) = reconcile(&mut dir, "2.0.0");
    assert_eq!(actions, vec![Action::ReadMarker]);
    assert_eq!(warnings, vec![]);
    assert!(dir.cache.is_some());
}

#[test]
fn version_with_space_around_it_never_settles() {
    let mut dir = dir_with(None, false, false);
    reconcile(&mut dir, " 2.0.0");
    assert_eq!(dir.marker, Some(" 2.0.0".to_string()));
    let (actions, _) = reconcile(&mut dir, " 2.0.0");
    assert_eq!(actions.len(), 5);
}

#[test]
fn failed_webview_deletion_stops_nothing() {
    let mut dir = dir_with(Some("1.9.0"), true, true);
    dir.deny_remove_webview = true;
    let (actions, warnings) = reconcile(&mut dir, "2.0.0");
    assert_eq!(
        warnings,
        vec![Warning::RemoveFailed(CacheDir::Webview, "permission denied".to_string())]
    );
    assert!(dir.webview.is_some());
    assert!(dir.cache.is_none());
    assert_eq!(dir.marker, Some("2.0.0".to_string()));
    assert_eq!(actions.len(), 7);
}

#[test]
fn failed_cache_deletion_is_reported() {
    let mut dir = dir_with(Some("1.9.0"), true, true);
    dir.deny_remove_cache = true;
    let (_, warnings) = reconcile(&mut dir, "2.0.0");
    assert_eq!(
        warnings,
        vec![Warning::RemoveFailed(CacheDir::Cache, "permission denied".to_string())]
    );
    assert!(dir.webview.is_none());
    assert!(dir.cache.is_some());
    assert_eq!(dir.marker, Some("2.0.0".to_string()));
}

#[test]
fn failed_creation_and_write_are_both_reported() {
    let mut dir = missing_dir();
    dir.deny_create = true;
    let (actions, warnings) = reconcile(&mut dir, "2.0.0");
    assert_eq!(
        warnings,
        vec![
            Warning::CreateFailed("permission denied".to_string()),
            Warning::WriteFailed("permission denied".to_string()),
        ]
    );
    assert!(!dir.exists);
    assert_eq!(dir.marker, None);
    assert_eq!(actions.last(), Some(&Action::WriteMarker("2.0.0".to_string())));
}

#[test]
fn failed_write_is_retried_at_the_next_start() {
    let mut dir = dir_with(Some("1.9.0"), false, true);
    dir.deny_write = true;
    let (_, warnings) = reconcile(&mut dir, "2.0.0");
    assert_eq!(warnings, vec![Warning::WriteFailed("permission denied".to_string())]);
    assert_eq!(dir.marker, Some("1.9.0".to_string()));
    assert!(dir.cache.is_none());
    dir.deny_write = false;
    let (actions, warnings) = reconcile(&mut dir, "2.0.0");
    assert_eq!(warnings, vec![]);
    assert_eq!(actions.len(), 5);
    assert_eq!(dir.marker, Some("2.0.0".to_string()));
}

#[test]
fn every_failure_at_once_still_ends() {
    let mut dir = dir_with(Some("1.9.0"), true, true);
    dir.deny_read = true;
    dir.deny_remove_webview = true;
    dir.deny_remove_cache = true;
    dir.deny_create = true;
    dir.deny_write = true;
    let (actions, warnings) = reconcile(&mut dir, "2.0.0");
    assert_eq!(actions.len(), 7);
    assert_eq!(
        warnings,
        vec![
            Warning::RemoveFailed(CacheDir::Webview, "permission denied".to_string()),
            Warning::RemoveFailed(CacheDir::Cache, "permission denied".to_string()),
            Warning::CreateFailed("permission denied".to_string()),
            Warning::WriteFailed("permission denied".to_string()),
        ]
    );
    assert_eq!(dir.marker, Some("1.9.0".to_string()));
}

#[test]
fn unreadable_marker_counts_as_empty() {
    let mut dir = dir_with(Some("2.0.0"), true, false);
    dir.deny_read = true;
    let (actions, warnings) = reconcile(&mut dir, "2.0.0");
    assert_eq!(warnings, vec![]);
    assert_eq!(actions.len(), 6);
    assert!(dir.webview.is_none());
    assert_eq!(dir.marker, Some("2.0.0".to_string()));
}

#[test]
fn new_routine_asks_for_the_marker() {
    let routine = Reconciler::new("2.0.0");
    assert_eq!(routine.pending(), Some(Action::ReadMarker));
    assert_eq!(routine.stored_version(), "");
    assert_eq!(routine.warnings().len(), 0);
}

#[test]
fn stored_version_is_the_trimmed_marker() {
    let mut routine = Reconciler::new("2.0.0");
    routine.advance(Outcome::Text("  1.9.0\r\n".to_string()));
    assert_eq!(routine.stored_version(), "1.9.0");
    assert_eq!(routine.pending(), Some(Action::ProbeDir(CacheDir::Webview)));
}

#[test]
fn stored_version_after_a_failed_read_is_empty() {
    let mut routine = Reconciler::new("2.0.0");
    routine.advance(Outcome::Failed("stream did not contain valid UTF-8".to_string()));
    assert_eq!(routine.stored_version(), "");
    assert_eq!(routine.pending(), Some(Action::ProbeDir(CacheDir::Webview)));
    assert_eq!(routine.warnings().len(), 0);
}

#[test]
fn finished_routine_stays_finished() {
    let mut routine = Reconciler::new("2.0.0");
    routine.advance(Outcome::Text("2.0.0".to_string()));
    assert_eq!(routine.pending(), None);
    routine.advance(Outcome::Failed("late".to_string()));
    routine.advance(Outcome::Present);
    assert_eq!(routine.pending(), None);
    assert_eq!(routine.warnings().len(), 0);
    assert_eq!(routine.stored_version(), "2.0.0");
}

#[test]
fn probe_answered_by_anything_but_present_skips_the_deletion() {
    let mut routine = Reconciler::new("2.0.0");
    routine.advance(Outcome::Absent);
    routine.advance(Outcome::Done);
    assert_eq!(routine.pending(), Some(Action::ProbeDir(CacheDir::Cache)));
    routine.advance(Outcome::Failed("no access".to_string()));
    assert_eq!(routine.pending(), Some(Action::CreateDataDir));
    assert_eq!(routine.warnings().len(), 0);
}

#[test]
fn deletion_answered_by_anything_but_failed_counts_as_done() {
    let mut routine = Reconciler::new("2.0.0");
    routine.advance(Outcome::Absent);
    routine.advance(Outcome::Present);
    assert_eq!(routine.pending(), Some(Action::RemoveDir(CacheDir::Webview)));
    routine.advance(Outcome::Absent);
    assert_eq!(routine.pending(), Some(Action::ProbeDir(CacheDir::Cache)));
    assert_eq!(routine.warnings().len(), 0);
}

#[test]
fn empty_build_version_always_invalidates() {
    let mut dir = dir_with(Some(""), false, false);
    let (actions, _) = reconcile(&mut dir, "");
    assert_eq!(actions.len(), 5);
    assert_eq!(dir.marker, Some("".to_string()));
}
