//! The effect of the whole routine, read off the data directory and the host
//! without following the routine step by step.

use vstd::prelude::*;
use crate::layout::CacheDir;
use crate::model::{DataDir, Host};
use crate::protocol::{ActionView, WarningView};
use crate::text::is_current_spec;

verus! {

/// The text that the routine takes the marker to hold: nothing, where the
/// marker is not there or the host refuses to read it.
pub open spec fn text_read(dir: DataDir, host: Host) -> Seq<char> {
    if (host.refuses)(ActionView::ReadMarker) {
        Seq::empty()
    } else {
        match dir.marker() {
            Some(text) => text,
            None => Seq::empty(),
        }
    }
}

/// Whether the routine finds the stored version to differ from `current`, and
/// so invalidates the caches.
pub open spec fn invalidates(dir: DataDir, current: Seq<char>, host: Host) -> bool {
    !is_current_spec(text_read(dir, host), current)
}

/// Whether the host finds the cache directory `d` in `dir`.
pub open spec fn found(dir: DataDir, host: Host, d: CacheDir) -> bool {
    dir.holds(d) && !(host.refuses)(ActionView::ProbeDir(d))
}

/// Whether an invalidation deletes the cache directory `d` from `dir`.
pub open spec fn removed(dir: DataDir, host: Host, d: CacheDir) -> bool {
    found(dir, host, d) && !(host.refuses)(ActionView::RemoveDir(d))
}

/// Whether the cache directory `d` is left in `dir` after an invalidation.
pub open spec fn survives(dir: DataDir, host: Host, d: CacheDir) -> bool {
    dir.holds(d) && !removed(dir, host, d)
}

/// Whether the application-data directory exists after an invalidation.
pub open spec fn exists_after(dir: DataDir, host: Host) -> bool {
    dir is Present || !(host.refuses)(ActionView::CreateDataDir)
}

/// Whether an invalidation gets `current` written to the marker.
pub open spec fn marker_written(dir: DataDir, current: Seq<char>, host: Host) -> bool {
    exists_after(dir, host) && !(host.refuses)(ActionView::WriteMarker(current))
}

/// What the routine leaves of `dir`.
pub open spec fn dir_after(dir: DataDir, current: Seq<char>, host: Host) -> DataDir {
    if !invalidates(dir, current, host) {
        dir
    } else if !exists_after(dir, host) {
        DataDir::Missing
    } else {
        DataDir::Present {
            marker: if marker_written(dir, current, host) {
                Some(current)
            } else {
                dir.marker()
            },
            webview: survives(dir, host, CacheDir::Webview),
            cache: survives(dir, host, CacheDir::Cache),
        }
    }
}

/// The actions that an invalidation spends on the cache directory `d`.
pub open spec fn dir_actions(dir: DataDir, host: Host, d: CacheDir) -> Seq<ActionView> {
    if found(dir, host, d) {
        seq![ActionView::ProbeDir(d), ActionView::RemoveDir(d)]
    } else {
        seq![ActionView::ProbeDir(d)]
    }
}

/// The actions of the whole routine, in their order.
pub open spec fn actions_of(dir: DataDir, current: Seq<char>, host: Host) -> Seq<ActionView> {
    if !invalidates(dir, current, host) {
        seq![ActionView::ReadMarker]
    } else {
        seq![ActionView::ReadMarker] + dir_actions(dir, host, CacheDir::Webview)
            + dir_actions(dir, host, CacheDir::Cache)
            + seq![ActionView::CreateDataDir, ActionView::WriteMarker(current)]
    }
}

/// The warning for the cache directory `d`, if its deletion fails.
pub open spec fn dir_warnings(dir: DataDir, host: Host, d: CacheDir) -> Seq<WarningView> {
    let action = ActionView::RemoveDir(d);
    if found(dir, host, d) && (host.refuses)(action) {
        seq![WarningView::RemoveFailed(d, (host.complaint)(action))]
    } else {
        Seq::empty()
    }
}

/// The warning for the application-data directory, if its creation fails.
pub open spec fn create_warnings(host: Host) -> Seq<WarningView> {
    let action = ActionView::CreateDataDir;
    if (host.refuses)(action) {
        seq![WarningView::CreateFailed((host.complaint)(action))]
    } else {
        Seq::empty()
    }
}

/// The warning for the marker, if an invalidation fails to write it.
pub open spec fn write_warnings(
    dir: DataDir,
    current: Seq<char>,
    host: Host,
) -> Seq<WarningView> {
    if marker_written(dir, current, host) {
        Seq::empty()
    } else {
        seq![WarningView::WriteFailed((host.complaint)(ActionView::WriteMarker(current)))]
    }
}

/// The warnings of the whole routine, in their order.
pub open spec fn warnings_of(dir: DataDir, current: Seq<char>, host: Host) -> Seq<WarningView> {
    if !invalidates(dir, current, host) {
        Seq::empty()
    } else {
        dir_warnings(dir, host, CacheDir::Webview) + dir_warnings(dir, host, CacheDir::Cache)
            + create_warnings(host) + write_warnings(dir, current, host)
    }
}

} // verus!
