//! A model of the application-data directory and of the host that works on
//! it, against which the routine's effect is stated.
//!
//! Nothing here is executable. The model holds what the routine can see of
//! the directory and what it can change there, and says how a host answers
//! each action: honestly about what is there, and failing only where it
//! refuses.

use vstd::prelude::*;
use crate::layout::CacheDir;
use crate::protocol::{ActionView, OutcomeView};
use crate::reconciler::ReconcilerView;

verus! {

/// The application-data directory, as far as the routine is concerned.
pub enum DataDir {
    /// The directory does not exist.
    Missing,
    /// The directory exists.
    Present {
        /// The text of the version marker, if the marker is there.
        marker: Option<Seq<char>>,
        /// Whether the web view's directory is there.
        webview: bool,
        /// Whether the general cache directory is there.
        cache: bool,
    },
}

impl DataDir {
    /// An existing directory without marker and caches.
    pub open spec fn empty() -> DataDir {
        DataDir::Present { marker: None, webview: false, cache: false }
    }

    /// The text of the version marker, if the marker is there.
    pub open spec fn marker(self) -> Option<Seq<char>> {
        match self {
            DataDir::Missing => None,
            DataDir::Present { marker, .. } => marker,
        }
    }

    /// Whether the cache directory `d` is there.
    pub open spec fn holds(self, d: CacheDir) -> bool {
        match (self, d) {
            (DataDir::Missing, _) => false,
            (DataDir::Present { webview, .. }, CacheDir::Webview) => webview,
            (DataDir::Present { cache, .. }, CacheDir::Cache) => cache,
        }
    }

    /// The directory after the cache directory `d` was deleted.
    pub open spec fn without(self, d: CacheDir) -> DataDir {
        match (self, d) {
            (DataDir::Missing, _) => DataDir::Missing,
            (DataDir::Present { marker, cache, .. }, CacheDir::Webview) => DataDir::Present {
                marker,
                webview: false,
                cache,
            },
            (DataDir::Present { marker, webview, .. }, CacheDir::Cache) => DataDir::Present {
                marker,
                webview,
                cache: false,
            },
        }
    }

    /// The directory after it was created, where it was missing.
    pub open spec fn created(self) -> DataDir {
        match self {
            DataDir::Missing => DataDir::empty(),
            _ => self,
        }
    }

    /// The existing directory after `text` was written to the marker.
    pub open spec fn with_marker(self, text: Seq<char>) -> DataDir {
        match self {
            DataDir::Missing => DataDir::Missing,
            DataDir::Present { webview, cache, .. } => DataDir::Present {
                marker: Some(text),
                webview,
                cache,
            },
        }
    }
}

/// The program and the system around the routine: which actions they refuse,
/// and the words in which they then say so.
pub struct Host {
    /// Whether the action fails for a reason of the host's own, such as a
    /// missing permission.
    pub refuses: spec_fn(ActionView) -> bool,
    /// The reason that the host gives when the action fails.
    pub complaint: spec_fn(ActionView) -> Seq<char>,
}

impl Host {
    /// Whether the host refuses nothing.
    pub open spec fn willing(self) -> bool {
        forall|a: ActionView| !(#[trigger] (self.refuses)(a))
    }

    /// What becomes of the directory when the host carries out `action`, and
    /// what the host reports.
    ///
    /// A marker that is not there is reported absent. A directory that the
    /// host may not look at is reported absent too. A deletion fails on a
    /// directory that is not there, a write where the application-data
    /// directory is missing.
    pub open spec fn perform(self, dir: DataDir, action: ActionView) -> (DataDir, OutcomeView) {
        let failed = OutcomeView::Failed((self.complaint)(action));
        let refused = (self.refuses)(action);
        match action {
            ActionView::ReadMarker => if refused {
                (dir, failed)
            } else {
                match dir.marker() {
                    Some(text) => (dir, OutcomeView::Text(text)),
                    None => (dir, OutcomeView::Absent),
                }
            },
            ActionView::ProbeDir(d) => if dir.holds(d) && !refused {
                (dir, OutcomeView::Present)
            } else {
                (dir, OutcomeView::Absent)
            },
            ActionView::RemoveDir(d) => if refused || !dir.holds(d) {
                (dir, failed)
            } else {
                (dir.without(d), OutcomeView::Done)
            },
            ActionView::CreateDataDir => if refused {
                (dir, failed)
            } else {
                (dir.created(), OutcomeView::Done)
            },
            ActionView::WriteMarker(text) => if refused || dir is Missing {
                (dir, failed)
            } else {
                (dir.with_marker(text), OutcomeView::Done)
            },
        }
    }
}

/// A run of the routine: where it stands, what the directory has become, and
/// the actions that the host carried out, in their order.
pub struct Run {
    /// The routine, as far as it has come.
    pub routine: ReconcilerView,
    /// The directory, as the actions so far have left it.
    pub dir: DataDir,
    /// The actions carried out so far, oldest first.
    pub actions: Seq<ActionView>,
}

impl Run {
    /// The run before anything was done.
    pub open spec fn start(dir: DataDir, current: Seq<char>) -> Run {
        Run { routine: ReconcilerView::initial(current), dir, actions: Seq::empty() }
    }

    /// The run after one more action: the host carries out what is pending
    /// and the routine takes its outcome.
    pub open spec fn step(self, host: Host) -> Run {
        match self.routine.pending() {
            None => self,
            Some(action) => {
                let (dir, outcome) = host.perform(self.dir, action);
                Run {
                    routine: self.routine.advance(outcome),
                    dir,
                    actions: self.actions.push(action),
                }
            },
        }
    }

    /// The run driven on until the routine asks for nothing more.
    pub open spec fn complete(self, host: Host) -> Run
        decreases self.routine.phase.rank(),
    {
        if self.routine.pending() is None {
            self
        } else {
            self.step(host).complete(host)
        }
    }
}

/// The whole routine for the build version `current`, on the directory `dir`
/// with the host `host`.
pub open spec fn reconcile(dir: DataDir, current: Seq<char>, host: Host) -> Run {
    Run::start(dir, current).complete(host)
}

} // verus!
