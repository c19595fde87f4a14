//! Removing an installed release.
//!
//! An uninstall resolves what the user typed, makes sure that the release is
//! not the one in use, and removes its directory. It is a state machine: it
//! decides, and whoever drives it acts. [`Uninstall::action`] says what is to
//! be done next, and [`Uninstall::step`] takes in what came of it.

use crate::config::Config;
use crate::directories::{directories_of, Directories, DirectoriesView};
use crate::paths::{join, joined};
use crate::release::{Version, VersionView};
use crate::resolver::{
    begun, input_of, proceed, proceeded, resolve, Answer, AnswerView, ListingReply,
    ListingReplyView, Query, QueryView, Resolution, ResolutionError, ResolutionView,
};
use crate::text::{followed_by, option_view};
use crate::tracker::{is_active, reports_active};
use vstd::prelude::*;
use vstd::string::*;

verus! {

/// Why an uninstall failed.
#[derive(Debug, PartialEq, Eq)]
pub enum UninstallError {
    /// The token names no release.
    Resolution(ResolutionError),
    /// The downloads directory cannot be told.
    DirectoryResolution,
    /// The release has no directory, though it was resolved.
    NotFound,
    /// The file system refused; the text is its own.
    Io(String),
}

/// What an [`UninstallError`] is, as a value.
pub enum UninstallErrorView {
    Resolution(ResolutionError),
    DirectoryResolution,
    NotFound,
    Io(Seq<char>),
}

impl View for UninstallError {
    type V = UninstallErrorView;

    open spec fn view(&self) -> UninstallErrorView {
        match self {
            UninstallError::Resolution(e) => UninstallErrorView::Resolution(*e),
            UninstallError::DirectoryResolution => UninstallErrorView::DirectoryResolution,
            UninstallError::NotFound => UninstallErrorView::NotFound,
            UninstallError::Io(text) => UninstallErrorView::Io(text@),
        }
    }
}

/// What came of removing a directory.
#[derive(Debug, PartialEq, Eq)]
pub enum Removal {
    /// The directory and all below it are gone.
    Done,
    /// There was no such directory.
    Missing,
    /// The file system refused; the text is its own.
    Failed(String),
}

/// What a [`Removal`] is, as a value.
pub enum RemovalView {
    Done,
    Missing,
    Failed(Seq<char>),
}

impl View for Removal {
    type V = RemovalView;

    open spec fn view(&self) -> RemovalView {
        match self {
            Removal::Done => RemovalView::Done,
            Removal::Missing => RemovalView::Missing,
            Removal::Failed(text) => RemovalView::Failed(text@),
        }
    }
}

/// What the driver is to do next.
#[derive(Debug, PartialEq, Eq)]
pub enum Action {
    /// Read which tag the marker in this installation directory names.
    ReadMarker { installation_dir: String },
    /// Ask the release listing about this token.
    QueryListing { token: String },
    /// See whether this directory exists.
    ProbeDirectory { path: String },
    /// Remove this directory and all below it.
    RemoveDirectory { path: String },
    /// Nothing: the uninstall has ended.
    Finish,
}

/// What an [`Action`] is, as a value.
pub enum ActionView {
    ReadMarker { installation_dir: Seq<char> },
    QueryListing { token: Seq<char> },
    ProbeDirectory { path: Seq<char> },
    RemoveDirectory { path: Seq<char> },
    Finish,
}

impl View for Action {
    type V = ActionView;

    open spec fn view(&self) -> ActionView {
        match self {
            Action::ReadMarker { installation_dir } => ActionView::ReadMarker {
                installation_dir: installation_dir@,
            },
            Action::QueryListing { token } => ActionView::QueryListing { token: token@ },
            Action::ProbeDirectory { path } => ActionView::ProbeDirectory { path: path@ },
            Action::RemoveDirectory { path } => ActionView::RemoveDirectory { path: path@ },
            Action::Finish => ActionView::Finish,
        }
    }
}

/// What came of an [`Action`].
#[derive(Debug, PartialEq, Eq)]
pub enum Event {
    /// The tag that the marker names; `None` where there is no marker.
    Marker(Option<String>),
    /// What the release listing says.
    Listing(ListingReply),
    /// Whether the directory exists.
    Probe(bool),
    /// What came of removing the directory.
    Removal(Removal),
}

/// What an [`Event`] is, as a value.
pub enum EventView {
    Marker(Option<Seq<char>>),
    Listing(ListingReplyView),
    Probe(bool),
    Removal(RemovalView),
}

impl View for Event {
    type V = EventView;

    open spec fn view(&self) -> EventView {
        match self {
            Event::Marker(named) => EventView::Marker(option_view(*named)),
            Event::Listing(reply) => EventView::Listing(reply@),
            Event::Probe(present) => EventView::Probe(*present),
            Event::Removal(removal) => EventView::Removal(removal@),
        }
    }
}

/// Where an uninstall stands.
#[derive(Debug)]
pub enum Phase {
    /// The token is being resolved, and this is what resolution waits for.
    Resolving(Query),
    /// The release is known; whether it is in use is being found out.
    Validating(Version),
    /// The release is not in use; its directory is being removed.
    Removing(Version),
    /// Ended: the release's directory is gone.
    Removed(Version),
    /// Ended: the release is in use, and nothing was removed.
    SkippedInUse(Version),
    /// Ended: nothing was removed, for this reason.
    Failed(UninstallError),
}

/// What a [`Phase`] is, as a value.
pub enum PhaseView {
    Resolving(QueryView),
    Validating(VersionView),
    Removing(VersionView),
    Removed(VersionView),
    SkippedInUse(VersionView),
    Failed(UninstallErrorView),
}

impl View for Phase {
    type V = PhaseView;

    open spec fn view(&self) -> PhaseView {
        match self {
            Phase::Resolving(query) => PhaseView::Resolving(query@),
            Phase::Validating(version) => PhaseView::Validating(version@),
            Phase::Removing(version) => PhaseView::Removing(version@),
            Phase::Removed(version) => PhaseView::Removed(version@),
            Phase::SkippedInUse(version) => PhaseView::SkippedInUse(version@),
            Phase::Failed(error) => PhaseView::Failed(error@),
        }
    }
}

/// How much a notice matters.
#[derive(Clone, Copy, Debug, PartialEq, Eq, Structural)]
pub enum Level {
    /// All went as asked.
    Info,
    /// Nothing was done, and the user can mend that.
    Warning,
    /// The uninstall failed.
    Error,
}

/// What the user is told when an uninstall has ended.
#[derive(Debug, PartialEq, Eq)]
pub struct Notice {
    pub level: Level,
    pub text: String,
}

/// What a [`Notice`] is, as a value.
pub struct NoticeView {
    pub level: Level,
    pub text: Seq<char>,
}

impl View for Notice {
    type V = NoticeView;

    open spec fn view(&self) -> NoticeView {
        NoticeView { level: self.level, text: self.text@ }
    }
}

impl UninstallErrorView {
    /// The reason, in words. What the file system said is passed on as it
    /// is.
    pub open spec fn reason(self) -> Seq<char> {
        match self {
            UninstallErrorView::Resolution(ResolutionError::NoActiveVersion) => {
                "No version is in use"@
            },
            UninstallErrorView::Resolution(ResolutionError::UnknownVersion) => {
                "No such version"@
            },
            UninstallErrorView::DirectoryResolution => {
                "The downloads directory cannot be determined"@
            },
            UninstallErrorView::NotFound => "The version is not installed"@,
            UninstallErrorView::Io(text) => text,
        }
    }
}

impl PhaseView {
    /// Whether the uninstall has ended.
    pub open spec fn is_terminal(self) -> bool {
        self is Removed || self is SkippedInUse || self is Failed
    }

    /// The exit code of an uninstall that has ended: 0 unless it failed.
    pub open spec fn exit_code(self) -> Option<u8> {
        match self {
            PhaseView::Removed(_) | PhaseView::SkippedInUse(_) => Some(0u8),
            PhaseView::Failed(_) => Some(1u8),
            _ => None,
        }
    }

    /// What the user is told once the uninstall has ended: the tag that was
    /// removed, a warning that the release is in use, or why the uninstall
    /// failed.
    pub open spec fn notice(self) -> Option<NoticeView> {
        match self {
            PhaseView::Removed(version) => Some(
                NoticeView {
                    level: Level::Info,
                    text: "Successfully uninstalled version: "@ + version.tag,
                },
            ),
            PhaseView::SkippedInUse(_) => Some(
                NoticeView {
                    level: Level::Warning,
                    text: "Switch to a different version before proceeding"@,
                },
            ),
            PhaseView::Failed(error) => Some(
                NoticeView { level: Level::Error, text: error.reason() },
            ),
            _ => None,
        }
    }
}

impl UninstallError {
    /// The reason, in words.
    pub fn reason(&self) -> (r: String)
        ensures
            r@ == self@.reason(),
    {
        match self {
            UninstallError::Resolution(ResolutionError::NoActiveVersion) => String::from_str(
                "No version is in use",
            ),
            UninstallError::Resolution(ResolutionError::UnknownVersion) => String::from_str(
                "No such version",
            ),
            UninstallError::DirectoryResolution => String::from_str(
                "The downloads directory cannot be determined",
            ),
            UninstallError::NotFound => String::from_str("The version is not installed"),
            UninstallError::Io(text) => text.clone(),
        }
    }
}

impl Phase {
    /// The exit code, once the uninstall has ended.
    pub fn exit_code(&self) -> (r: Option<u8>)
        ensures
            r == self@.exit_code(),
    {
        match self {
            Phase::Removed(_) | Phase::SkippedInUse(_) => Some(0),
            Phase::Failed(_) => Some(1),
            _ => None,
        }
    }

    /// What the user is told, once the uninstall has ended.
    pub fn notice(&self) -> (r: Option<Notice>)
        ensures
            option_view(r) == self@.notice(),
    {
        match self {
            Phase::Removed(version) => Some(
                Notice {
                    level: Level::Info,
                    text: followed_by("Successfully uninstalled version: ", version.tag()),
                },
            ),
            Phase::SkippedInUse(_) => Some(
                Notice {
                    level: Level::Warning,
                    text: String::from_str("Switch to a different version before proceeding"),
                },
            ),
            Phase::Failed(error) => Some(Notice { level: Level::Error, text: error.reason() }),
            _ => None,
        }
    }
}

/// What an [`Uninstall`] is, as a value.
pub struct UninstallView {
    /// The directories that the uninstall works in.
    pub directories: DirectoriesView,
    /// Where the uninstall stands.
    pub phase: PhaseView,
}

impl DirectoriesView {
    /// The phase in which a release's directory is removed, or the failure
    /// to tell where that directory is.
    pub open spec fn removing(self, version: VersionView) -> PhaseView {
        if self.downloads is Some {
            PhaseView::Removing(version)
        } else {
            PhaseView::Failed(UninstallErrorView::DirectoryResolution)
        }
    }

    /// The phase that follows resolution. Without an installation directory
    /// there is no marker to read, and so no release in use.
    pub open spec fn validating(self, version: VersionView) -> PhaseView {
        if self.installation is Some {
            PhaseView::Validating(version)
        } else {
            self.removing(version)
        }
    }

    /// The phase that a state of resolution puts an uninstall in.
    ///
    /// A query about a directory that cannot be told is answered at once:
    /// there is no marker, and nothing has been downloaded.
    pub open spec fn entered(self, resolution: ResolutionView) -> PhaseView {
        match resolution {
            ResolutionView::Resolved(version) => self.validating(version),
            ResolutionView::Failed(error) => PhaseView::Failed(
                UninstallErrorView::Resolution(error),
            ),
            ResolutionView::Pending(QueryView::ActiveMarker) => if self.installation is Some {
                PhaseView::Resolving(QueryView::ActiveMarker)
            } else {
                PhaseView::Failed(
                    UninstallErrorView::Resolution(ResolutionError::NoActiveVersion),
                )
            },
            ResolutionView::Pending(QueryView::Cache { tag }) => if self.downloads is Some {
                PhaseView::Resolving(QueryView::Cache { tag })
            } else {
                PhaseView::Failed(UninstallErrorView::Resolution(ResolutionError::UnknownVersion))
            },
            ResolutionView::Pending(query) => PhaseView::Resolving(query),
        }
    }
}

impl UninstallView {
    /// Whether the uninstall knows every directory that its phase works in.
    pub open spec fn well_formed(self) -> bool {
        match self.phase {
            PhaseView::Resolving(QueryView::ActiveMarker) => self.directories.installation is Some,
            PhaseView::Resolving(QueryView::Cache { tag }) => self.directories.downloads is Some,
            PhaseView::Validating(_) => self.directories.installation is Some,
            PhaseView::Removing(_) => self.directories.downloads is Some,
            _ => true,
        }
    }

    /// What the driver is to do next.
    pub open spec fn action(self) -> ActionView {
        match self.phase {
            PhaseView::Resolving(QueryView::ActiveMarker) | PhaseView::Validating(_) => {
                match self.directories.installation {
                    Some(installation_dir) => ActionView::ReadMarker { installation_dir },
                    None => ActionView::Finish,
                }
            },
            PhaseView::Resolving(QueryView::Listing { token }) => ActionView::QueryListing {
                token,
            },
            PhaseView::Resolving(QueryView::Cache { tag }) => match self.directories.downloads {
                Some(dir) => ActionView::ProbeDirectory { path: joined(dir, tag) },
                None => ActionView::Finish,
            },
            PhaseView::Removing(version) => match self.directories.downloads {
                Some(dir) => ActionView::RemoveDirectory { path: joined(dir, version.tag) },
                None => ActionView::Finish,
            },
            _ => ActionView::Finish,
        }
    }

    /// The phase after `event`.
    ///
    /// - While resolving, the answer that resolution waits for lets it go on.
    /// - While validating, the marker decides: a release in use is kept.
    /// - While removing, the outcome of the removal ends the uninstall.
    /// - Any other event changes nothing.
    pub open spec fn next_phase(self, event: EventView) -> PhaseView {
        match (self.phase, event) {
            (PhaseView::Resolving(QueryView::ActiveMarker), EventView::Marker(named)) => {
                self.directories.entered(
                    proceeded(QueryView::ActiveMarker, AnswerView::ActiveMarker(named)),
                )
            },
            (PhaseView::Resolving(QueryView::Listing { token }), EventView::Listing(reply)) => {
                self.directories.entered(
                    proceeded(QueryView::Listing { token }, AnswerView::Listing(reply)),
                )
            },
            (PhaseView::Resolving(QueryView::Cache { tag }), EventView::Probe(present)) => {
                self.directories.entered(
                    proceeded(QueryView::Cache { tag }, AnswerView::Cache(present)),
                )
            },
            (PhaseView::Validating(version), EventView::Marker(named)) => {
                if reports_active(version.tag, named) {
                    PhaseView::SkippedInUse(version)
                } else {
                    self.directories.removing(version)
                }
            },
            (PhaseView::Removing(version), EventView::Removal(RemovalView::Done)) => {
                PhaseView::Removed(version)
            },
            (PhaseView::Removing(version), EventView::Removal(RemovalView::Missing)) => {
                PhaseView::Failed(UninstallErrorView::NotFound)
            },
            (PhaseView::Removing(version), EventView::Removal(RemovalView::Failed(text))) => {
                PhaseView::Failed(UninstallErrorView::Io(text))
            },
            _ => self.phase,
        }
    }

    /// The uninstall after `event`.
    pub open spec fn stepped(self, event: EventView) -> UninstallView {
        UninstallView { phase: self.next_phase(event), ..self }
    }
}

/// The uninstall of what `token` names, before anything has been done.
pub open spec fn started(token: Seq<char>, directories: DirectoriesView) -> UninstallView {
    UninstallView { directories, phase: directories.entered(begun(input_of(token))) }
}

impl Directories {
    /// The phase in which `version`'s directory is removed.
    fn removing(&self, version: Version) -> (r: Phase)
        ensures
            r@ == self@.removing(version@),
    {
        match self.downloads {
            Some(_) => Phase::Removing(version),
            None => Phase::Failed(UninstallError::DirectoryResolution),
        }
    }

    /// The phase that follows the resolution of `version`.
    fn validating(&self, version: Version) -> (r: Phase)
        ensures
            r@ == self@.validating(version@),
    {
        match self.installation {
            Some(_) => Phase::Validating(version),
            None => self.removing(version),
        }
    }

    /// The phase that `resolution` puts an uninstall in.
    fn entered(&self, resolution: Resolution) -> (r: Phase)
        ensures
            r@ == self@.entered(resolution@),
    {
        match resolution {
            Resolution::Resolved(version) => self.validating(version),
            Resolution::Failed(error) => Phase::Failed(UninstallError::Resolution(error)),
            Resolution::Pending(Query::ActiveMarker) => match self.installation {
                Some(_) => Phase::Resolving(Query::ActiveMarker),
                None => Phase::Failed(
                    UninstallError::Resolution(ResolutionError::NoActiveVersion),
                ),
            },
            Resolution::Pending(Query::Cache { tag }) => match self.downloads {
                Some(_) => Phase::Resolving(Query::Cache { tag }),
                None => Phase::Failed(UninstallError::Resolution(ResolutionError::UnknownVersion)),
            },
            Resolution::Pending(query) => Phase::Resolving(query),
        }
    }
}

/// An uninstall under way.
#[derive(Debug)]
pub struct Uninstall {
    directories: Directories,
    phase: Phase,
}

impl View for Uninstall {
    type V = UninstallView;

    closed spec fn view(&self) -> UninstallView {
        UninstallView { directories: self.directories@, phase: self.phase@ }
    }
}

/// Starts the uninstall of what `version` names.
///
/// `platform_root` is the platform's directory for user data, where it has
/// one.
pub fn start(version: &str, config: &Config, platform_root: Option<&str>) -> (r: Uninstall)
    ensures
        r@ == started(version@, directories_of(config@, option_view(platform_root))),
{
    let directories = Directories::of(config, platform_root);
    let phase = directories.entered(resolve(version));
    Uninstall { directories, phase }
}

impl Uninstall {
    #[verifier::type_invariant]
    spec fn knows_its_directories(self) -> bool {
        self@.well_formed()
    }

    /// Where the uninstall stands.
    pub fn phase(&self) -> (r: &Phase)
        ensures
            r@ == self@.phase,
    {
        &self.phase
    }

    /// Whether the uninstall has ended.
    pub fn is_finished(&self) -> (r: bool)
        ensures
            r == self@.phase.is_terminal(),
            r == (self@.action() is Finish),
    {
        proof {
            use_type_invariant(self);
        }
        match self.phase {
            Phase::Removed(_) | Phase::SkippedInUse(_) | Phase::Failed(_) => true,
            _ => false,
        }
    }

    /// What the driver is to do next.
    pub fn action(&self) -> (r: Action)
        ensures
            r@ == self@.action(),
    {
        match &self.phase {
            Phase::Resolving(Query::ActiveMarker) | Phase::Validating(_) => {
                match &self.directories.installation {
                    Some(dir) => Action::ReadMarker { installation_dir: dir.clone() },
                    None => Action::Finish,
                }
            },
            Phase::Resolving(Query::Listing { token }) => Action::QueryListing {
                token: token.clone(),
            },
            Phase::Resolving(Query::Cache { tag }) => match &self.directories.downloads {
                Some(dir) => Action::ProbeDirectory { path: join(dir.as_str(), tag.as_str()) },
                None => Action::Finish,
            },
            Phase::Removing(version) => match &self.directories.downloads {
                Some(dir) => Action::RemoveDirectory { path: join(dir.as_str(), version.tag()) },
                None => Action::Finish,
            },
            _ => Action::Finish,
        }
    }

    /// Takes in what came of the last action.
    pub fn step(self, event: Event) -> (r: Uninstall)
        ensures
            r@ == self@.stepped(event@),
    {
        proof {
            use_type_invariant(&self);
        }
        let Uninstall { directories, phase } = self;
        let phase = match (phase, event) {
            (Phase::Resolving(Query::ActiveMarker), Event::Marker(named)) => {
                directories.entered(proceed(Query::ActiveMarker, Answer::ActiveMarker(named)))
            },
            (Phase::Resolving(Query::Listing { token }), Event::Listing(reply)) => {
                directories.entered(proceed(Query::Listing { token }, Answer::Listing(reply)))
            },
            (Phase::Resolving(Query::Cache { tag }), Event::Probe(present)) => {
                directories.entered(proceed(Query::Cache { tag }, Answer::Cache(present)))
            },
            (Phase::Validating(version), Event::Marker(named)) => {
                let active = match &named {
                    Some(tag) => is_active(version.tag(), Some(tag.as_str())),
                    None => is_active(version.tag(), None),
                };
                if active {
                    Phase::SkippedInUse(version)
                } else {
                    directories.removing(version)
                }
            },
            (Phase::Removing(version), Event::Removal(Removal::Done)) => Phase::Removed(version),
            (Phase::Removing(_), Event::Removal(Removal::Missing)) => Phase::Failed(
                UninstallError::NotFound,
            ),
            (Phase::Removing(_), Event::Removal(Removal::Failed(text))) => Phase::Failed(
                UninstallError::Io(text),
            ),
            (phase, _) => phase,
        };
        Uninstall { directories, phase }
    }
}

} // verus!
