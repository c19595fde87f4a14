//! A model of what lies around an uninstall: the marker, the release listing
//! and the directories on disk, and a driver that never fails.
//!
//! The model serves to state what an uninstall comes to as a whole. Nothing
//! in it runs.

use crate::directories::DirectoriesView;
use crate::paths::joined;
use crate::release::{
    is_commit_like, kind_of, normalized, recognized, ReleaseKind, VersionView,
};
use crate::resolver::{
    input_of, proceeded, AnswerView, ListingReplyView, QueryView, ResolutionError, ResolutionView,
    ResolverInputView,
};
use crate::tracker::reports_active;
use crate::uninstall::{started, ActionView, EventView, RemovalView, UninstallView};
use vstd::prelude::*;

verus! {

/// What an uninstall finds around it.
pub struct World {
    /// The tag that the marker in the installation directory names.
    pub marker: Option<Seq<char>>,
    /// The releases that the listing knows, by the token that finds them.
    pub listing: Map<Seq<char>, (Seq<char>, ReleaseKind)>,
    /// The paths of the release directories that exist. Each is an entry of
    /// the downloads directory, so none lies inside another.
    pub directories: Set<Seq<char>>,
}

impl World {
    /// What the listing says of `token`.
    pub open spec fn listed(self, token: Seq<char>) -> ListingReplyView {
        if self.listing.contains_key(token) {
            ListingReplyView::Found { tag: self.listing[token].0, kind: self.listing[token].1 }
        } else {
            ListingReplyView::NotFound
        }
    }

    /// What comes of `action`.
    pub open spec fn answer(self, action: ActionView) -> EventView {
        match action {
            ActionView::ReadMarker { installation_dir } => EventView::Marker(self.marker),
            ActionView::QueryListing { token } => EventView::Listing(self.listed(token)),
            ActionView::ProbeDirectory { path } => EventView::Probe(self.directories.contains(path)),
            ActionView::RemoveDirectory { path } => EventView::Removal(
                if self.directories.contains(path) {
                    RemovalView::Done
                } else {
                    RemovalView::Missing
                },
            ),
            ActionView::Finish => EventView::Probe(false),
        }
    }

    /// The world once `action` is done: a removed directory is gone, and
    /// nothing else has changed.
    pub open spec fn after(self, action: ActionView) -> World {
        match action {
            ActionView::RemoveDirectory { path } => World {
                directories: self.directories.remove(path),
                ..self
            },
            _ => self,
        }
    }

    /// Whether the release in use, as far as it can be told, has its
    /// directory.
    pub open spec fn keeps_active_release(self, directories: DirectoriesView) -> bool {
        (directories.installation is Some && directories.downloads is Some && self.marker is Some)
            ==> self.directories.contains(
            joined(directories.downloads->0, normalized(self.marker->0)),
        )
    }

    /// Whether the tracker reports `tag` as the release in use.
    pub open spec fn in_use(self, directories: DirectoriesView, tag: Seq<char>) -> bool {
        directories.installation is Some && reports_active(tag, self.marker)
    }

    /// What `token` resolves to.
    pub open spec fn resolved(self, directories: DirectoriesView, token: Seq<char>) -> Result<
        VersionView,
        ResolutionError,
    > {
        match input_of(token) {
            ResolverInputView::ActiveAlias => {
                if directories.installation is Some && self.marker is Some {
                    let tag = normalized(self.marker->0);
                    Ok(VersionView { tag, kind: kind_of(tag) })
                } else {
                    Err(ResolutionError::NoActiveVersion)
                }
            },
            ResolverInputView::Literal(tag) => {
                if recognized(tag) is Some {
                    Ok(VersionView { tag, kind: recognized(tag)->0 })
                } else if self.listing.contains_key(tag) {
                    Ok(
                        VersionView {
                            tag: normalized(self.listing[tag].0),
                            kind: self.listing[tag].1,
                        },
                    )
                } else if self.cached(directories, tag) {
                    Ok(VersionView { tag, kind: ReleaseKind::Commit })
                } else {
                    Err(ResolutionError::UnknownVersion)
                }
            },
        }
    }

    /// What resolution is told when it asks `query`. A question about a
    /// directory that cannot be told finds nothing.
    pub open spec fn reply(self, directories: DirectoriesView, query: QueryView) -> AnswerView {
        match query {
            QueryView::ActiveMarker => AnswerView::ActiveMarker(
                if directories.installation is Some {
                    self.marker
                } else {
                    None
                },
            ),
            QueryView::Listing { token } => AnswerView::Listing(self.listed(token)),
            QueryView::Cache { tag } => AnswerView::Cache(
                directories.downloads is Some && self.directories.contains(
                    joined(directories.downloads->0, tag),
                ),
            ),
        }
    }

    /// Resolution after at most `steps` more answers.
    pub open spec fn settled(
        self,
        directories: DirectoriesView,
        resolution: ResolutionView,
        steps: nat,
    ) -> ResolutionView
        decreases steps,
    {
        match resolution {
            ResolutionView::Pending(query) if steps > 0 => self.settled(
                directories,
                proceeded(query, self.reply(directories, query)),
                (steps - 1) as nat,
            ),
            _ => resolution,
        }
    }

    /// Whether `tag` names a commit that has been downloaded.
    pub open spec fn cached(self, directories: DirectoriesView, tag: Seq<char>) -> bool {
        &&& is_commit_like(tag)
        &&& directories.downloads is Some
        &&& self.directories.contains(joined(directories.downloads->0, tag))
    }
}

/// Whether `action` reads or changes the file system.
pub open spec fn touches_files(action: ActionView) -> bool {
    action is ReadMarker || action is ProbeDirectory || action is RemoveDirectory
}

/// An uninstall, the world around it, and the actions done so far.
pub struct Run {
    pub uninstall: UninstallView,
    pub world: World,
    pub trace: Seq<ActionView>,
}

impl Run {
    /// The run after at most `steps` more actions, each answered by the
    /// world.
    pub open spec fn driven(self, steps: nat) -> Run
        decreases steps,
    {
        let action = self.uninstall.action();
        if steps == 0 || action is Finish {
            self
        } else {
            (Run {
                uninstall: self.uninstall.stepped(self.world.answer(action)),
                world: self.world.after(action),
                trace: self.trace.push(action),
            }).driven((steps - 1) as nat)
        }
    }
}

/// The most actions that an uninstall takes.
pub open spec fn most_steps() -> nat {
    4
}

/// The uninstall of what `token` names, driven to its end in `world`.
pub open spec fn uninstalled(token: Seq<char>, directories: DirectoriesView, world: World) -> Run {
    (Run { uninstall: started(token, directories), world, trace: Seq::empty() }).driven(
        most_steps(),
    )
}

} // verus!
