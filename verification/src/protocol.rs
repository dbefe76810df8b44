//! What the routine asks of the program around it, and what that program
//! reports back.
//!
//! The routine never touches the file system itself. It names one action at a
//! time; the host carries the action out and hands back its outcome.

use vstd::prelude::*;
use crate::layout::CacheDir;

verus! {

/// One operation on the application-data directory.
#[derive(Debug, PartialEq, Eq)]
pub enum Action {
    /// Read the version marker as text.
    ReadMarker,
    /// Find out whether the cache directory is there.
    ProbeDir(CacheDir),
    /// Delete the cache directory with all that it holds.
    RemoveDir(CacheDir),
    /// Create the application-data directory and its missing parents.
    CreateDataDir,
    /// Replace what the version marker holds by this text.
    WriteMarker(String),
}

/// The mathematical value of an [`Action`].
pub enum ActionView {
    ReadMarker,
    ProbeDir(CacheDir),
    RemoveDir(CacheDir),
    CreateDataDir,
    WriteMarker(Seq<char>),
}

impl View for Action {
    type V = ActionView;

    open spec fn view(&self) -> ActionView {
        match *self {
            Action::ReadMarker => ActionView::ReadMarker,
            Action::ProbeDir(d) => ActionView::ProbeDir(d),
            Action::RemoveDir(d) => ActionView::RemoveDir(d),
            Action::CreateDataDir => ActionView::CreateDataDir,
            Action::WriteMarker(text) => ActionView::WriteMarker(text@),
        }
    }
}

impl Clone for Action {
    fn clone(&self) -> (copy: Action)
        ensures
            copy@ == self@,
    {
        match self {
            Action::ReadMarker => Action::ReadMarker,
            Action::ProbeDir(d) => Action::ProbeDir(*d),
            Action::RemoveDir(d) => Action::RemoveDir(*d),
            Action::CreateDataDir => Action::CreateDataDir,
            Action::WriteMarker(text) => Action::WriteMarker(text.clone()),
        }
    }
}

impl ActionView {
    /// Whether carrying the action out can change the directory.
    pub open spec fn mutates(self) -> bool {
        self is RemoveDir || self is CreateDataDir || self is WriteMarker
    }
}

/// What became of an [`Action`].
#[derive(Debug, PartialEq, Eq)]
pub enum Outcome {
    /// The marker was read and held this text.
    Text(String),
    /// What was asked for is not there.
    Absent,
    /// The directory asked for is there.
    Present,
    /// The operation succeeded.
    Done,
    /// The operation failed, with the reason in words.
    Failed(String),
}

/// The mathematical value of an [`Outcome`].
pub enum OutcomeView {
    Text(Seq<char>),
    Absent,
    Present,
    Done,
    Failed(Seq<char>),
}

impl View for Outcome {
    type V = OutcomeView;

    open spec fn view(&self) -> OutcomeView {
        match *self {
            Outcome::Text(text) => OutcomeView::Text(text@),
            Outcome::Absent => OutcomeView::Absent,
            Outcome::Present => OutcomeView::Present,
            Outcome::Done => OutcomeView::Done,
            Outcome::Failed(why) => OutcomeView::Failed(why@),
        }
    }
}

impl Clone for Outcome {
    fn clone(&self) -> (copy: Outcome)
        ensures
            copy@ == self@,
    {
        match self {
            Outcome::Text(text) => Outcome::Text(text.clone()),
            Outcome::Absent => Outcome::Absent,
            Outcome::Present => Outcome::Present,
            Outcome::Done => Outcome::Done,
            Outcome::Failed(why) => Outcome::Failed(why.clone()),
        }
    }
}

impl OutcomeView {
    /// The text that the outcome of a read stands for. Whatever is not a text
    /// that was read, a missing marker and a failure among it, stands for the
    /// empty text.
    pub open spec fn text(self) -> Seq<char> {
        match self {
            OutcomeView::Text(text) => text,
            _ => Seq::empty(),
        }
    }
}

/// A failure that the routine met and went on from.
#[derive(Debug, PartialEq, Eq)]
pub enum Warning {
    /// The cache directory could not be deleted.
    RemoveFailed(CacheDir, String),
    /// The application-data directory could not be created.
    CreateFailed(String),
    /// The version marker could not be written.
    WriteFailed(String),
}

/// The mathematical value of a [`Warning`].
pub enum WarningView {
    RemoveFailed(CacheDir, Seq<char>),
    CreateFailed(Seq<char>),
    WriteFailed(Seq<char>),
}

impl View for Warning {
    type V = WarningView;

    open spec fn view(&self) -> WarningView {
        match *self {
            Warning::RemoveFailed(d, why) => WarningView::RemoveFailed(d, why@),
            Warning::CreateFailed(why) => WarningView::CreateFailed(why@),
            Warning::WriteFailed(why) => WarningView::WriteFailed(why@),
        }
    }
}

impl Clone for Warning {
    fn clone(&self) -> (copy: Warning)
        ensures
            copy@ == self@,
    {
        match self {
            Warning::RemoveFailed(d, why) => Warning::RemoveFailed(*d, why.clone()),
            Warning::CreateFailed(why) => Warning::CreateFailed(why.clone()),
            Warning::WriteFailed(why) => Warning::WriteFailed(why.clone()),
        }
    }
}

/// The values of a list of warnings, in its order.
pub open spec fn warning_views(warnings: Seq<Warning>) -> Seq<WarningView> {
    warnings.map_values(|w: Warning| w@)
}

} // verus!
