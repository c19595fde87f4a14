//! What holds of every uninstall, stated over the model and proved.

use crate::directories::DirectoriesView;
use crate::model::{most_steps, touches_files, uninstalled, Run, World};
use crate::paths::{joined, joined_tells_names_apart};
use crate::release::{
    is_canonical, is_commit_like, normalized, normalized_is_canonical, tags_are_canonical,
    VersionView,
};
use crate::resolver::{begun, input_of, ResolutionError, ResolutionView};
use crate::uninstall::{started, EventView, PhaseView, UninstallErrorView, UninstallView};
use vstd::prelude::*;

verus! {

/// An uninstall starts knowing the directories that it works in, and no
/// event makes it forget one.
pub proof fn stays_well_formed(
    token: Seq<char>,
    directories: DirectoriesView,
    uninstall: UninstallView,
    event: EventView,
)
    ensures
        started(token, directories).well_formed(),
        uninstall.well_formed() ==> uninstall.stepped(event).well_formed(),
{
}

/// While an uninstall has not ended there is something to do, and once it has
/// there is nothing.
pub proof fn acts_until_it_ends(uninstall: UninstallView)
    requires
        uninstall.well_formed(),
    ensures
        uninstall.action() is Finish <==> uninstall.phase.is_terminal(),
{
}

/// A resolved version carries a canonical tag.
pub proof fn resolves_to_canonical_tag(
    token: Seq<char>,
    directories: DirectoriesView,
    world: World,
)
    ensures
        world.resolved(directories, token) matches Ok(version) ==> is_canonical(version.tag),
{
    if let Ok(version) = world.resolved(directories, token) {
        let tag = normalized(token);
        normalized_is_canonical(token);
        if world.marker is Some {
            normalized_is_canonical(world.marker->0);
        }
        if world.listing.contains_key(tag) {
            normalized_is_canonical(world.listing[tag].0);
        }
        if is_commit_like(tag) {
            tags_are_canonical(tag);
        }
    }
}

/// Resolution ends within two answers, and comes to what the world's
/// releases, marker and downloads make of the token.
pub proof fn resolution_settles(token: Seq<char>, directories: DirectoriesView, world: World)
    ensures
        world.settled(directories, begun(input_of(token)), 2) == match world.resolved(
            directories,
            token,
        ) {
            Ok(version) => ResolutionView::Resolved(version),
            Err(error) => ResolutionView::Failed(error),
        },
{
    reveal_with_fuel(World::settled, 3);
    commit_names_are_canonical(normalized(token));
}

/// Every uninstall ends within four actions, in the directories it started
/// with.
pub proof fn ends(token: Seq<char>, directories: DirectoriesView, world: World)
    ensures
        uninstalled(token, directories, world).uninstall.phase.is_terminal(),
        uninstalled(token, directories, world).uninstall.directories == directories,
        uninstalled(token, directories, world).trace.len() <= most_steps(),
{
    reveal_with_fuel(Run::driven, 5);
}

/// Resolution comes before validation, and validation before removal: the
/// listing is asked at most once and first of all, and a directory is removed
/// only as the last action, right after the marker was read wherever there is
/// an installation directory to read it in.
pub proof fn acts_in_order(token: Seq<char>, directories: DirectoriesView, world: World)
    ensures
        forall|i: int|
            0 <= i < uninstalled(token, directories, world).trace.len() && (#[trigger] uninstalled(
                token,
                directories,
                world,
            ).trace[i]) is QueryListing ==> i == 0,
        forall|i: int|
            0 <= i < uninstalled(token, directories, world).trace.len() && (#[trigger] uninstalled(
                token,
                directories,
                world,
            ).trace[i]) is RemoveDirectory ==> {
                &&& i == uninstalled(token, directories, world).trace.len() - 1
                &&& directories.installation is Some ==> i > 0 && uninstalled(
                    token,
                    directories,
                    world,
                ).trace[i - 1] is ReadMarker
            },
{
    reveal_with_fuel(Run::driven, 5);
}

/// A token that does not resolve ends the uninstall with the resolver's
/// error, and nothing on disk has changed.
pub proof fn unresolved_fails(token: Seq<char>, directories: DirectoriesView, world: World)
    requires
        world.resolved(directories, token) is Err,
    ensures
        uninstalled(token, directories, world).uninstall.phase == PhaseView::Failed(
            UninstallErrorView::Resolution(world.resolved(directories, token)->Err_0),
        ),
        uninstalled(token, directories, world).world == world,
{
    reveal_with_fuel(Run::driven, 5);
    commit_names_are_canonical(normalized(token));
}

/// Uninstalling the release in use removes nothing and ends as skipped.
pub proof fn release_in_use_is_kept(
    token: Seq<char>,
    directories: DirectoriesView,
    world: World,
    version: VersionView,
)
    requires
        world.resolved(directories, token) == Ok::<VersionView, ResolutionError>(version),
        world.in_use(directories, version.tag),
    ensures
        uninstalled(token, directories, world).uninstall.phase == PhaseView::SkippedInUse(version),
        uninstalled(token, directories, world).world == world,
        forall|i: int|
            0 <= i < uninstalled(token, directories, world).trace.len() ==> !(#[trigger] uninstalled(
                token,
                directories,
                world,
            ).trace[i] is RemoveDirectory),
{
    reveal_with_fuel(Run::driven, 5);
    commit_names_are_canonical(normalized(token));
}

/// Uninstalling a release that is not in use and has its directory removes
/// that directory and nothing else: afterwards the directory does not exist,
/// every other one does as before, and the marker and the listing are as
/// they were.
pub proof fn removes_exactly_one_directory(
    token: Seq<char>,
    directories: DirectoriesView,
    world: World,
    version: VersionView,
)
    requires
        world.resolved(directories, token) == Ok::<VersionView, ResolutionError>(version),
        !world.in_use(directories, version.tag),
        directories.downloads is Some,
        world.directories.contains(joined(directories.downloads->0, version.tag)),
    ensures
        uninstalled(token, directories, world).uninstall.phase == PhaseView::Removed(version),
        uninstalled(token, directories, world).world == (World {
            directories: world.directories.remove(joined(directories.downloads->0, version.tag)),
            ..world
        }),
        !uninstalled(token, directories, world).world.directories.contains(
            joined(directories.downloads->0, version.tag),
        ),
{
    reveal_with_fuel(Run::driven, 5);
    commit_names_are_canonical(normalized(token));
}

/// Uninstalling a release that is not in use and has no directory fails as
/// not found, and nothing on disk has changed.
pub proof fn missing_directory_is_not_found(
    token: Seq<char>,
    directories: DirectoriesView,
    world: World,
    version: VersionView,
)
    requires
        world.resolved(directories, token) == Ok::<VersionView, ResolutionError>(version),
        !world.in_use(directories, version.tag),
        directories.downloads is Some,
        !world.directories.contains(joined(directories.downloads->0, version.tag)),
    ensures
        uninstalled(token, directories, world).uninstall.phase == PhaseView::Failed(
            UninstallErrorView::NotFound,
        ),
        uninstalled(token, directories, world).world == world,
{
    reveal_with_fuel(Run::driven, 5);
    commit_names_are_canonical(normalized(token));
    let path = joined(directories.downloads->0, version.tag);
    assert(world.directories.remove(path) =~= world.directories);
}

/// Where the downloads directory cannot be told, a release that resolves and
/// is not in use is not removed: the uninstall fails for want of the
/// directory, and nothing on disk has changed.
pub proof fn unknown_directory_fails(
    token: Seq<char>,
    directories: DirectoriesView,
    world: World,
    version: VersionView,
)
    requires
        world.resolved(directories, token) == Ok::<VersionView, ResolutionError>(version),
        !world.in_use(directories, version.tag),
        directories.downloads is None,
    ensures
        uninstalled(token, directories, world).uninstall.phase == PhaseView::Failed(
            UninstallErrorView::DirectoryResolution,
        ),
        uninstalled(token, directories, world).world == world,
{
    reveal_with_fuel(Run::driven, 5);
}

/// A token that names no release, and no commit either, fails as unknown
/// before the file system is read or changed.
pub proof fn unknown_token_touches_no_file(
    token: Seq<char>,
    directories: DirectoriesView,
    world: World,
)
    requires
        world.resolved(directories, token) == Err::<VersionView, ResolutionError>(
            ResolutionError::UnknownVersion,
        ),
        !is_commit_like(normalized(token)),
    ensures
        uninstalled(token, directories, world).uninstall.phase == PhaseView::Failed(
            UninstallErrorView::Resolution(ResolutionError::UnknownVersion),
        ),
        uninstalled(token, directories, world).world == world,
        forall|i: int|
            0 <= i < uninstalled(token, directories, world).trace.len() ==> !touches_files(
                #[trigger] uninstalled(token, directories, world).trace[i],
            ),
{
    reveal_with_fuel(Run::driven, 5);
}

/// Uninstalling the same release twice succeeds the first time and fails as
/// not found the second time.
///
/// This is stated of tokens that the releases' own names or the listing
/// resolve: a commit that only its directory makes known is unknown once the
/// directory is gone.
pub proof fn second_uninstall_is_not_found(
    token: Seq<char>,
    directories: DirectoriesView,
    world: World,
    version: VersionView,
)
    requires
        world.resolved(directories, token) == Ok::<VersionView, ResolutionError>(version),
        !world.in_use(directories, version.tag),
        directories.downloads is Some,
        world.directories.contains(joined(directories.downloads->0, version.tag)),
        !world.cached(directories, normalized(token)) || world.listing.contains_key(
            normalized(token),
        ),
    ensures
        uninstalled(token, directories, world).uninstall.phase == PhaseView::Removed(version),
        uninstalled(
            token,
            directories,
            uninstalled(token, directories, world).world,
        ).uninstall.phase == PhaseView::Failed(UninstallErrorView::NotFound),
        uninstalled(token, directories, uninstalled(token, directories, world).world).world
            == uninstalled(token, directories, world).world,
{
    removes_exactly_one_directory(token, directories, world, version);
    let then = uninstalled(token, directories, world).world;
    assert(then.resolved(directories, token) == world.resolved(directories, token)) by {
        commit_names_are_canonical(normalized(token));
    }
    missing_directory_is_not_found(token, directories, then, version);
}

/// No uninstall removes the directory of the release in use: if that
/// directory exists before, it exists after.
pub proof fn keeps_the_release_in_use(token: Seq<char>, directories: DirectoriesView, world: World)
    requires
        world.keeps_active_release(directories),
    ensures
        uninstalled(token, directories, world).world.keeps_active_release(directories),
        uninstalled(token, directories, world).world.marker == world.marker,
{
    resolves_to_canonical_tag(token, directories, world);
    match world.resolved(directories, token) {
        Err(_) => {
            unresolved_fails(token, directories, world);
        },
        Ok(version) => {
            if world.in_use(directories, version.tag) {
                release_in_use_is_kept(token, directories, world, version);
            } else if directories.downloads is None {
                unknown_directory_fails(token, directories, world, version);
            } else {
                let dir = directories.downloads->0;
                let path = joined(dir, version.tag);
                if world.directories.contains(path) {
                    removes_exactly_one_directory(token, directories, world, version);
                    if directories.installation is Some && world.marker is Some {
                        let active = normalized(world.marker->0);
                        if joined(dir, active) == path {
                            joined_tells_names_apart(dir, active, version.tag);
                        }
                    }
                } else {
                    missing_directory_is_not_found(token, directories, world, version);
                }
            }
        },
    }
}

/// A name that reads as a commit is canonical.
proof fn commit_names_are_canonical(tag: Seq<char>)
    ensures
        is_commit_like(tag) ==> is_canonical(tag),
{
    if is_commit_like(tag) {
        tags_are_canonical(tag);
    }
}

} // verus!
