//! The routine itself: a machine that walks from the reading of the version
//! marker to the end, one action of the host at a time.

use vstd::prelude::*;
use crate::layout::CacheDir;
use crate::protocol::{
    warning_views, Action, ActionView, Outcome, OutcomeView, Warning, WarningView,
};
use crate::text::{is_current, is_current_spec, trim, trimmed};

verus! {

/// Where the routine stands: the action whose outcome it waits for.
#[derive(Clone, Copy, Debug, PartialEq, Eq, Structural)]
pub enum Phase {
    /// The marker is being read.
    Reading,
    /// The versions differ; the host looks for the cache directory.
    Probing(CacheDir),
    /// The cache directory is there and is being deleted.
    Removing(CacheDir),
    /// The application-data directory is being created.
    Creating,
    /// The marker is being written.
    Writing,
    /// Nothing is left to do.
    Finished,
}

impl Phase {
    /// The phase that follows the handling of the cache directory `d`.
    pub open spec fn after_dir(d: CacheDir) -> Phase {
        match d {
            CacheDir::Webview => Phase::Probing(CacheDir::Cache),
            CacheDir::Cache => Phase::Creating,
        }
    }

    /// An upper bound on the outcomes that the routine still waits for.
    pub open spec fn rank(self) -> nat {
        match self {
            Phase::Reading => 7,
            Phase::Probing(CacheDir::Webview) => 6,
            Phase::Removing(CacheDir::Webview) => 5,
            Phase::Probing(CacheDir::Cache) => 4,
            Phase::Removing(CacheDir::Cache) => 3,
            Phase::Creating => 2,
            Phase::Writing => 1,
            Phase::Finished => 0,
        }
    }
}

/// The mathematical value of a [`Reconciler`].
pub struct ReconcilerView {
    /// The version of the running build.
    pub current: Seq<char>,
    /// The action waited for.
    pub phase: Phase,
    /// The text that the marker held; empty until it was read, and when it
    /// could not be read.
    pub read: Seq<char>,
    /// The failures met so far, oldest first.
    pub warnings: Seq<WarningView>,
}

impl ReconcilerView {
    /// The routine before anything was done, for the build version `current`.
    pub open spec fn initial(current: Seq<char>) -> ReconcilerView {
        ReconcilerView {
            current,
            phase: Phase::Reading,
            read: Seq::empty(),
            warnings: Seq::empty(),
        }
    }

    /// The action that the host is to carry out next; `None` at the end.
    pub open spec fn pending(self) -> Option<ActionView> {
        match self.phase {
            Phase::Reading => Some(ActionView::ReadMarker),
            Phase::Probing(d) => Some(ActionView::ProbeDir(d)),
            Phase::Removing(d) => Some(ActionView::RemoveDir(d)),
            Phase::Creating => Some(ActionView::CreateDataDir),
            Phase::Writing => Some(ActionView::WriteMarker(self.current)),
            Phase::Finished => None,
        }
    }

    /// The phase that follows when the host reports `outcome` for the
    /// pending action.
    ///
    /// A stored version that is empty or differs from the build's sends the
    /// routine through both cache directories, then to the creation of the
    /// application-data directory and the writing of the marker. No failure
    /// on that way stops it or turns it back.
    pub open spec fn next_phase(self, outcome: OutcomeView) -> Phase {
        match self.phase {
            Phase::Reading => if is_current_spec(outcome.text(), self.current) {
                Phase::Finished
            } else {
                Phase::Probing(CacheDir::Webview)
            },
            Phase::Probing(d) => if outcome is Present {
                Phase::Removing(d)
            } else {
                Phase::after_dir(d)
            },
            Phase::Removing(d) => Phase::after_dir(d),
            Phase::Creating => Phase::Writing,
            Phase::Writing => Phase::Finished,
            Phase::Finished => Phase::Finished,
        }
    }

    /// The warning that `outcome` gives rise to, if any: a failed deletion,
    /// creation or write. A marker that cannot be read is no cause for one.
    pub open spec fn warning(self, outcome: OutcomeView) -> Option<WarningView> {
        match (self.phase, outcome) {
            (Phase::Removing(d), OutcomeView::Failed(why)) => Some(
                WarningView::RemoveFailed(d, why),
            ),
            (Phase::Creating, OutcomeView::Failed(why)) => Some(WarningView::CreateFailed(why)),
            (Phase::Writing, OutcomeView::Failed(why)) => Some(WarningView::WriteFailed(why)),
            _ => None,
        }
    }

    /// The routine after the host reported `outcome` for the pending action.
    pub open spec fn advance(self, outcome: OutcomeView) -> ReconcilerView {
        ReconcilerView {
            current: self.current,
            phase: self.next_phase(outcome),
            read: if self.phase is Reading {
                outcome.text()
            } else {
                self.read
            },
            warnings: match self.warning(outcome) {
                Some(warning) => self.warnings.push(warning),
                None => self.warnings,
            },
        }
    }
}

/// The cache invalidation routine of one start of the application.
pub struct Reconciler {
    current: String,
    phase: Phase,
    read: String,
    warnings: Vec<Warning>,
}

impl View for Reconciler {
    type V = ReconcilerView;

    closed spec fn view(&self) -> ReconcilerView {
        ReconcilerView {
            current: self.current@,
            phase: self.phase,
            read: self.read@,
            warnings: warning_views(self.warnings@),
        }
    }
}

impl Reconciler {
    /// The routine before anything was done, for the build version
    /// `current_version`.
    pub fn new(current_version: &str) -> (r: Reconciler)
        ensures
            r@ == ReconcilerView::initial(current_version@),
    {
        let r = Reconciler {
            current: current_version.to_owned(),
            phase: Phase::Reading,
            read: String::new(),
            warnings: Vec::new(),
        };
        assert(warning_views(r.warnings@) =~= Seq::empty());
        r
    }

    /// The action that the host is to carry out next; `None` at the end.
    pub fn pending(&self) -> (a: Option<Action>)
        ensures
            match a {
                Some(action) => self@.pending() == Some(action@),
                None => self@.pending() is None,
            },
    {
        match self.phase {
            Phase::Reading => Some(Action::ReadMarker),
            Phase::Probing(d) => Some(Action::ProbeDir(d)),
            Phase::Removing(d) => Some(Action::RemoveDir(d)),
            Phase::Creating => Some(Action::CreateDataDir),
            Phase::Writing => Some(Action::WriteMarker(self.current.clone())),
            Phase::Finished => None,
        }
    }

    /// Takes the outcome of the pending action and moves on.
    pub fn advance(&mut self, outcome: Outcome)
        ensures
            final(self)@ == old(self)@.advance(outcome@),
    {
        match self.phase {
            Phase::Reading => {
                let read = match outcome {
                    Outcome::Text(text) => text,
                    _ => String::new(),
                };
                if is_current(read.as_str(), self.current.as_str()) {
                    self.phase = Phase::Finished;
                } else {
                    self.phase = Phase::Probing(CacheDir::Webview);
                }
                self.read = read;
            },
            Phase::Probing(d) => {
                match outcome {
                    Outcome::Present => {
                        self.phase = Phase::Removing(d);
                    },
                    _ => {
                        self.phase = Self::after_dir(d);
                    },
                }
            },
            Phase::Removing(d) => {
                self.phase = Self::after_dir(d);
                if let Outcome::Failed(why) = outcome {
                    self.note(Warning::RemoveFailed(d, why));
                }
            },
            Phase::Creating => {
                self.phase = Phase::Writing;
                if let Outcome::Failed(why) = outcome {
                    self.note(Warning::CreateFailed(why));
                }
            },
            Phase::Writing => {
                self.phase = Phase::Finished;
                if let Outcome::Failed(why) = outcome {
                    self.note(Warning::WriteFailed(why));
                }
            },
            Phase::Finished => {},
        }
    }

    fn after_dir(d: CacheDir) -> (p: Phase)
        ensures
            p == Phase::after_dir(d),
    {
        match d {
            CacheDir::Webview => Phase::Probing(CacheDir::Cache),
            CacheDir::Cache => Phase::Creating,
        }
    }

    fn note(&mut self, warning: Warning)
        ensures
            final(self)@ == (ReconcilerView {
                warnings: old(self)@.warnings.push(warning@),
                ..old(self)@
            }),
    {
        self.warnings.push(warning);
        assert(warning_views(self.warnings@) =~= warning_views(old(self).warnings@).push(
            warning@,
        ));
    }

    /// The stored version as the routine compared it: what the marker held,
    /// without the whitespace around it.
    pub fn stored_version(&self) -> (s: &str)
        ensures
            s@ == trimmed(self@.read),
    {
        trim(self.read.as_str())
    }

    /// The failures met so far, oldest first.
    pub fn warnings(&self) -> (w: &Vec<Warning>)
        ensures
            warning_views(w@) == self@.warnings,
    {
        &self.warnings
    }
}

} // verus!
