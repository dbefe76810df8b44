//! What holds of every run of the routine.

use vstd::prelude::*;
use crate::layout::CacheDir;
use crate::effect::{
    actions_of, dir_actions, dir_after, dir_warnings, found, invalidates, marker_written,
    removed, text_read, warnings_of,
};
use crate::model::{reconcile, DataDir, Host, Run};
use crate::protocol::{ActionView, OutcomeView, WarningView};
use crate::reconciler::{Phase, ReconcilerView};
use crate::text::{trimmed, well_formed_version};

verus! {

/// Whatever the host reports, each outcome brings the end nearer, and the
/// routine asks for seven actions at most. So the host's loop ends, and no
/// failure keeps the application from starting.
pub proof fn law_every_outcome_brings_the_end_nearer(
    routine: ReconcilerView,
    outcome: OutcomeView,
)
    requires
        routine.pending() is Some,
    ensures
        routine.advance(outcome).phase.rank() < routine.phase.rank() <= 7,
{
}

/// Whatever the host reports, the routine keeps the build version it was made
/// for and every warning it has collected.
pub proof fn law_nothing_is_forgotten(routine: ReconcilerView, outcome: OutcomeView)
    ensures
        routine.advance(outcome).current == routine.current,
        routine.warnings.is_prefix_of(routine.advance(outcome).warnings),
{
}

/// The run after the routine has dealt with the cache directory `d`, where it
/// stood at the probing of `d`.
spec fn past_dir(run: Run, host: Host, d: CacheDir) -> Run {
    Run {
        routine: ReconcilerView {
            phase: Phase::after_dir(d),
            warnings: run.routine.warnings + dir_warnings(run.dir, host, d),
            ..run.routine
        },
        dir: if removed(run.dir, host, d) {
            run.dir.without(d)
        } else {
            run.dir
        },
        actions: run.actions + dir_actions(run.dir, host, d),
    }
}

/// From the probing of a cache directory the run comes to the phase that
/// follows the directory, whether the directory is found or not and whether
/// its deletion fails or not.
proof fn lemma_dir_stage(run: Run, host: Host, d: CacheDir)
    requires
        run.routine.phase == Phase::Probing(d),
    ensures
        run.complete(host) == past_dir(run, host, d).complete(host),
{
    let probed = run.step(host);
    if found(run.dir, host, d) {
        let deleted = probed.step(host);
        assert(probed.complete(host) == deleted.complete(host));
        assert(deleted.actions =~= past_dir(run, host, d).actions);
        assert(deleted.routine.warnings =~= past_dir(run, host, d).routine.warnings);
    } else {
        assert(probed.actions =~= past_dir(run, host, d).actions);
        assert(probed.routine.warnings =~= past_dir(run, host, d).routine.warnings);
    }
}

/// The routine always comes to its end, whatever the host refuses, and its
/// effect can be read off the directory and the host: what it leaves of the
/// directory, the actions it asks for and the warnings it collects are those
/// that `dir_after`, `actions_of` and `warnings_of` name.
pub proof fn law_effect(dir: DataDir, current: Seq<char>, host: Host)
    ensures
        reconcile(dir, current, host) == (Run {
            routine: ReconcilerView {
                current,
                phase: Phase::Finished,
                read: text_read(dir, host),
                warnings: warnings_of(dir, current, host),
            },
            dir: dir_after(dir, current, host),
            actions: actions_of(dir, current, host),
        }),
{
    let read = Run::start(dir, current).step(host);
    if invalidates(dir, current, host) {
        let webview = past_dir(read, host, CacheDir::Webview);
        let cache = past_dir(webview, host, CacheDir::Cache);
        lemma_dir_stage(read, host, CacheDir::Webview);
        lemma_dir_stage(webview, host, CacheDir::Cache);
        let created = cache.step(host);
        let written = created.step(host);
        assert(created.complete(host) == written.complete(host));
        assert(written.actions =~= actions_of(dir, current, host));
        assert(written.routine.warnings =~= warnings_of(dir, current, host));
    } else {
        assert(read.complete(host) == read);
    }
}

/// A marker that holds the current version, with or without whitespace
/// around it, leaves everything as it is: the routine reads the marker and
/// asks for nothing else, so neither the caches nor the marker are touched.
pub proof fn law_current_version_changes_nothing(
    dir: DataDir,
    stored: Seq<char>,
    current: Seq<char>,
    host: Host,
)
    requires
        dir.marker() == Some(stored),
        !(host.refuses)(ActionView::ReadMarker),
        current.len() > 0,
        trimmed(stored) == current,
    ensures
        ({
            let after = reconcile(dir, current, host);
            &&& after.dir == dir
            &&& after.actions == seq![ActionView::ReadMarker]
            &&& forall|i: int|
                0 <= i < after.actions.len() ==> !(#[trigger] after.actions[i]).mutates()
            &&& after.routine.warnings == Seq::<WarningView>::empty()
        }),
{
    law_effect(dir, current, host);
}

/// A marker that is missing, empty or holds another version has the caches
/// invalidated: where the host refuses nothing, the directory then exists,
/// the marker holds exactly the current version, neither cache directory is
/// left, and there is no warning.
pub proof fn law_other_version_invalidates(dir: DataDir, current: Seq<char>, host: Host)
    requires
        host.willing(),
        invalidates(dir, current, host),
    ensures
        ({
            let after = reconcile(dir, current, host);
            &&& after.dir == (DataDir::Present {
                marker: Some(current),
                webview: false,
                cache: false,
            })
            &&& after.routine.warnings == Seq::<WarningView>::empty()
        }),
{
    law_effect(dir, current, host);
}

/// A second run right after the first changes nothing. This holds for a
/// well-formed build version and a host that reads the marker, creates the
/// directory and writes the marker without failure; deletions may fail.
pub proof fn law_second_run_changes_nothing(dir: DataDir, current: Seq<char>, host: Host)
    requires
        well_formed_version(current),
        !(host.refuses)(ActionView::ReadMarker),
        !(host.refuses)(ActionView::CreateDataDir),
        !(host.refuses)(ActionView::WriteMarker(current)),
    ensures
        ({
            let first = reconcile(dir, current, host);
            let second = reconcile(first.dir, current, host);
            &&& second.dir == first.dir
            &&& second.actions == seq![ActionView::ReadMarker]
            &&& second.routine.warnings == Seq::<WarningView>::empty()
        }),
{
    law_effect(dir, current, host);
    law_effect(reconcile(dir, current, host).dir, current, host);
}

/// A cache directory that cannot be deleted stops nothing. Where the versions
/// differ and the host refuses to delete the web view's directory, the general
/// cache directory, if it is there and the host deletes it, is gone
/// afterwards, and the marker, if the host writes it, holds the current
/// version. The web view's directory is left as it was, with a warning where
/// the host found it.
pub proof fn law_failed_removal_stops_nothing(dir: DataDir, current: Seq<char>, host: Host)
    requires
        invalidates(dir, current, host),
        (host.refuses)(ActionView::RemoveDir(CacheDir::Webview)),
        dir.holds(CacheDir::Cache),
        !(host.refuses)(ActionView::ProbeDir(CacheDir::Cache)),
        !(host.refuses)(ActionView::RemoveDir(CacheDir::Cache)),
        !(host.refuses)(ActionView::WriteMarker(current)),
    ensures
        ({
            let after = reconcile(dir, current, host);
            &&& !after.dir.holds(CacheDir::Cache)
            &&& after.dir.marker() == Some(current)
            &&& after.dir.holds(CacheDir::Webview) == dir.holds(CacheDir::Webview)
            &&& found(dir, host, CacheDir::Webview) ==> after.routine.warnings.len() > 0
                && after.routine.warnings[0] == WarningView::RemoveFailed(
                CacheDir::Webview,
                (host.complaint)(ActionView::RemoveDir(CacheDir::Webview)),
            )
        }),
{
    law_effect(dir, current, host);
}

/// No action but the write changes the marker: a run that is cut short
/// before the write leaves the marker as it found it.
pub proof fn law_marker_stays_until_the_write(run: Run, host: Host)
    requires
        !(run.routine.phase is Writing),
    ensures
        run.step(host).dir.marker() == run.dir.marker(),
{
}

/// The marker is written last: every deletion, and the creation of the
/// directory, is asked for before the write.
pub proof fn law_marker_is_written_last(dir: DataDir, current: Seq<char>, host: Host)
    ensures
        ({
            let actions = reconcile(dir, current, host).actions;
            forall|i: int, j: int|
                #![trigger actions[i], actions[j]]
                0 <= i < actions.len() && 0 <= j < actions.len() && actions[i].mutates()
                    && actions[j] is WriteMarker ==> i <= j
        }),
{
    law_effect(dir, current, host);
}

/// Where the application-data directory is missing and cannot be created, the
/// write of the marker fails too. Both failures become warnings, in this
/// order, and the routine still ends.
pub proof fn law_failed_creation_fails_the_write(dir: DataDir, current: Seq<char>, host: Host)
    requires
        dir is Missing,
        (host.refuses)(ActionView::CreateDataDir),
    ensures
        ({
            let after = reconcile(dir, current, host);
            &&& after.dir is Missing
            &&& after.routine.warnings == seq![
                WarningView::CreateFailed((host.complaint)(ActionView::CreateDataDir)),
                WarningView::WriteFailed((host.complaint)(ActionView::WriteMarker(current))),
            ]
        }),
{
    law_effect(dir, current, host);
}

/// A marker that could not be written is written at the next start: the next
/// run, whatever its host, finds the versions to differ again.
pub proof fn law_failed_write_is_retried(
    dir: DataDir,
    current: Seq<char>,
    host: Host,
    next: Host,
)
    requires
        !(host.refuses)(ActionView::ReadMarker),
        invalidates(dir, current, host),
        !marker_written(dir, current, host),
    ensures
        invalidates(reconcile(dir, current, host).dir, current, next),
{
    law_effect(dir, current, host);
}

} // verus!
