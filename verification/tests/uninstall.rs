use bob::config::Config;
use bob::release::ReleaseKind;
use bob::resolver::{ListingReply, ResolutionError};
use bob::uninstall::{
    start, Action, Event, Level, Notice, Phase, Removal, Uninstall, UninstallError,
};
use std::collections::{BTreeMap, BTreeSet};

struct World {
    marker: Option<String>,
    listing: BTreeMap<String, (String, ReleaseKind)>,
    directories: BTreeSet<String>,
    trace: Vec<Action>,
}

impl World {
    fn new(marker: Option<&str>, directories: &[&str]) -> World {
        let mut listing = BTreeMap::new();
        listing.insert("stable".to_string(), ("v0.10.4".to_string(), ReleaseKind::Stable));
        World {
            marker: marker.map(|m| m.to_string()),
            listing,
            directories: directories.iter().map(|d| d.to_string()).collect(),
            trace: Vec::new(),
        }
    }

    fn answer(&mut self, action: &Action) -> Event {
        match action {
            Action::ReadMarker { .. } => Event::Marker(self.marker.clone()),
            Action::QueryListing { token } => Event::Listing(match self.listing.get(token) {
                Some((tag, kind)) => ListingReply::Found { tag: tag.clone(), kind: *kind },
                None => ListingReply::NotFound,
            }),
            Action::ProbeDirectory { path } => Event::Probe(self.directories.contains(path)),
            Action::RemoveDirectory { path } => Event::Removal(if self.directories.remove(path) {
                Removal::Done
            } else {
                Removal::Missing
            }),
            Action::Finish => unreachable!(),
        }
    }

    fn uninstall(&mut self, token: &str) -> Uninstall {
        let mut config = Config::unset();
        config.downloads_dir = Some("/dl".to_string());
        config.installation_location = Some("/bin".to_string());
        self.drive(start(token, &config, None))
    }

    fn drive(&mut self, mut uninstall: Uninstall) -> Uninstall {
        self.trace.clear();
        while !uninstall.is_finished() {
            let action = uninstall.action();
            let event = self.answer(&action);
            self.trace.push(action);
            uninstall = uninstall.step(event);
        }
        assert_eq!(uninstall.action(), Action::Finish);
        uninstall
    }
}

fn removed_tag(uninstall: &Uninstall) -> String {
    match uninstall.phase() {
        Phase::Removed(version) => version.tag().to_string(),
        other => panic!("not removed: {:?}", other),
    }
}

fn skipped_tag(uninstall: &Uninstall) -> String {
    match uninstall.phase() {
        Phase::SkippedInUse(version) => version.tag().to_string(),
        other => panic!("not skipped: {:?}", other),
    }
}

fn failure(uninstall: &Uninstall) -> &UninstallError {
    match uninstall.phase() {
        Phase::Failed(error) => error,
        other => panic!("not failed: {:?}", other),
    }
}

fn dirs(world: &World) -> Vec<&str> {
    world.directories.iter().map(|d| d.as_str()).collect()
}

#[test]
fn release_in_use_is_skipped_and_kept() {
    let mut world = World::new(Some("v0.9.1"), &["/dl/v0.9.1", "/dl/v0.9.0"]);
    let end = world.uninstall("0.9.1");
    assert_eq!(skipped_tag(&end), "v0.9.1");
    assert_eq!(dirs(&world), vec!["/dl/v0.9.0", "/dl/v0.9.1"]);
    assert_eq!(world.trace, vec![Action::ReadMarker { installation_dir: "/bin".to_string() }]);
}

#[test]
fn alias_of_the_release_in_use_is_skipped() {
    let mut world = World::new(Some("nightly"), &["/dl/nightly"]);
    let end = world.uninstall("active");
    assert_eq!(skipped_tag(&end), "nightly");
    assert_eq!(dirs(&world), vec!["/dl/nightly"]);
    let end = world.uninstall("current");
    assert_eq!(skipped_tag(&end), "nightly");
}

#[test]
fn alias_without_a_marker_fails() {
    let mut world = World::new(None, &["/dl/nightly"]);
    let end = world.uninstall("active");
    assert_eq!(
        failure(&end),
        &UninstallError::Resolution(ResolutionError::NoActiveVersion)
    );
    assert_eq!(dirs(&world), vec!["/dl/nightly"]);
}

#[test]
fn release_not_in_use_is_removed_and_nothing_else() {
    let mut world = World::new(Some("v0.9.1"), &["/dl/v0.9.0", "/dl/v0.9.1", "/dl/nightly"]);
    let end = world.uninstall("v0.9.0");
    assert_eq!(removed_tag(&end), "v0.9.0");
    assert_eq!(dirs(&world), vec!["/dl/nightly", "/dl/v0.9.1"]);
    assert!(!world.directories.contains("/dl/v0.9.0"));
    assert_eq!(
        world.trace,
        vec![
            Action::ReadMarker { installation_dir: "/bin".to_string() },
            Action::RemoveDirectory { path: "/dl/v0.9.0".to_string() },
        ]
    );
}

#[test]
fn release_without_a_directory_is_not_found() {
    let mut world = World::new(None, &["/dl/v0.9.1"]);
    let end = world.uninstall("v0.9.0");
    assert_eq!(failure(&end), &UninstallError::NotFound);
    assert_eq!(dirs(&world), vec!["/dl/v0.9.1"]);
}

#[test]
fn unknown_token_fails_before_any_file_is_touched() {
    let mut world = World::new(Some("v0.9.1"), &["/dl/v0.9.1"]);
    let end = world.uninstall("no-such-release");
    assert_eq!(failure(&end), &UninstallError::Resolution(ResolutionError::UnknownVersion));
    assert_eq!(world.trace, vec![Action::QueryListing { token: "no-such-release".to_string() }]);
    assert_eq!(dirs(&world), vec!["/dl/v0.9.1"]);
}

#[test]
fn second_uninstall_is_not_found() {
    let mut world = World::new(None, &["/dl/v0.9.1"]);
    let first = world.uninstall("0.9.1");
    assert_eq!(removed_tag(&first), "v0.9.1");
    let second = world.uninstall("0.9.1");
    assert_eq!(failure(&second), &UninstallError::NotFound);
    assert!(world.directories.is_empty());
}

#[test]
fn listed_alias_is_removed_under_its_tag() {
    let mut world = World::new(Some("nightly"), &["/dl/v0.10.4", "/dl/stable"]);
    let end = world.uninstall("stable");
    assert_eq!(removed_tag(&end), "v0.10.4");
    assert_eq!(dirs(&world), vec!["/dl/stable"]);
    assert_eq!(
        world.trace,
        vec![
            Action::QueryListing { token: "stable".to_string() },
            Action::ReadMarker { installation_dir: "/bin".to_string() },
            Action::RemoveDirectory { path: "/dl/v0.10.4".to_string() },
        ]
    );
}

#[test]
fn downloaded_commit_is_removed_after_a_probe() {
    let mut world = World::new(None, &["/dl/abcdef1"]);
    let end = world.uninstall("abcdef1");
    assert_eq!(removed_tag(&end), "abcdef1");
    assert!(world.directories.is_empty());
    assert_eq!(
        world.trace,
        vec![
            Action::QueryListing { token: "abcdef1".to_string() },
            Action::ProbeDirectory { path: "/dl/abcdef1".to_string() },
            Action::ReadMarker { installation_dir: "/bin".to_string() },
            Action::RemoveDirectory { path: "/dl/abcdef1".to_string() },
        ]
    );
}

#[test]
fn uninstall_of_a_commit_without_directory_is_unknown() {
    let mut world = World::new(None, &["/dl/v0.9.1"]);
    let end = world.uninstall("abcdef1");
    assert_eq!(failure(&end), &UninstallError::Resolution(ResolutionError::UnknownVersion));
    assert_eq!(dirs(&world), vec!["/dl/v0.9.1"]);
}

#[test]
fn removal_that_the_file_system_refuses_is_an_io_failure() {
    let mut config = Config::unset();
    config.downloads_dir = Some("/dl".to_string());
    let uninstall = start("v0.9.1", &config, None);
    assert_eq!(uninstall.action(), Action::RemoveDirectory { path: "/dl/v0.9.1".to_string() });
    let end = uninstall.step(Event::Removal(Removal::Failed("permission denied".to_string())));
    assert!(end.is_finished());
    assert_eq!(failure(&end), &UninstallError::Io("permission denied".to_string()));
}

#[test]
fn without_a_downloads_directory_nothing_can_be_removed() {
    let mut config = Config::unset();
    config.installation_location = Some("/bin".to_string());
    let uninstall = start("v0.9.1", &config, None);
    assert_eq!(uninstall.action(), Action::ReadMarker { installation_dir: "/bin".to_string() });
    let end = uninstall.step(Event::Marker(None));
    assert_eq!(failure(&end), &UninstallError::DirectoryResolution);
}

#[test]
fn without_any_directory_the_release_in_use_cannot_be_told() {
    let config = Config::unset();
    let end = start("active", &config, None);
    assert!(end.is_finished());
    assert_eq!(failure(&end), &UninstallError::Resolution(ResolutionError::NoActiveVersion));
    let end = start("v0.9.1", &config, None);
    assert_eq!(failure(&end), &UninstallError::DirectoryResolution);
}

#[test]
fn default_directories_lie_below_the_platform_directory() {
    let config = Config::unset();
    let uninstall = start("nightly", &config, Some("/data"));
    assert_eq!(
        uninstall.action(),
        Action::ReadMarker { installation_dir: "/data/bob/installed".to_string() }
    );
    let uninstall = uninstall.step(Event::Marker(Some("v0.9.1".to_string())));
    assert_eq!(
        uninstall.action(),
        Action::RemoveDirectory { path: "/data/bob/downloads/nightly".to_string() }
    );
}

#[test]
fn event_that_answers_nothing_is_ignored() {
    let mut config = Config::unset();
    config.downloads_dir = Some("/dl".to_string());
    config.installation_location = Some("/bin".to_string());
    let uninstall = start("v0.9.1", &config, None);
    let uninstall = uninstall.step(Event::Removal(Removal::Done));
    assert!(!uninstall.is_finished());
    assert_eq!(uninstall.action(), Action::ReadMarker { installation_dir: "/bin".to_string() });
    let uninstall = uninstall.step(Event::Marker(None));
    let uninstall = uninstall.step(Event::Probe(true));
    assert_eq!(uninstall.action(), Action::RemoveDirectory { path: "/dl/v0.9.1".to_string() });
    let end = uninstall.step(Event::Removal(Removal::Done));
    assert_eq!(removed_tag(&end), "v0.9.1");
    let end = end.step(Event::Removal(Removal::Missing));
    assert_eq!(removed_tag(&end), "v0.9.1");
}

#[test]
fn removed_release_is_reported_and_exits_zero() {
    let mut world = World::new(None, &["/dl/v0.9.1"]);
    let end = world.uninstall("0.9.1");
    assert_eq!(end.phase().exit_code(), Some(0));
    assert_eq!(
        end.phase().notice(),
        Some(Notice {
            level: Level::Info,
            text: "Successfully uninstalled version: v0.9.1".to_string(),
        })
    );
}

#[test]
fn skipped_release_warns_and_exits_zero() {
    let mut world = World::new(Some("v0.9.1"), &["/dl/v0.9.1"]);
    let end = world.uninstall("0.9.1");
    assert_eq!(end.phase().exit_code(), Some(0));
    assert_eq!(
        end.phase().notice(),
        Some(Notice {
            level: Level::Warning,
            text: "Switch to a different version before proceeding".to_string(),
        })
    );
}

#[test]
fn failure_gives_its_reason_and_exits_nonzero() {
    let mut world = World::new(None, &[]);
    let end = world.uninstall("0.9.1");
    assert_eq!(end.phase().exit_code(), Some(1));
    assert_eq!(
        end.phase().notice(),
        Some(Notice { level: Level::Error, text: "The version is not installed".to_string() })
    );
    let end = world.uninstall("nope");
    assert_eq!(end.phase().exit_code(), Some(1));
    assert_eq!(failure(&end).reason(), "No such version");
    let end = world.uninstall("active");
    assert_eq!(failure(&end).reason(), "No version is in use");
    assert_eq!(UninstallError::DirectoryResolution.reason(), "The downloads directory cannot be determined");
    assert_eq!(UninstallError::Io("disk on fire".to_string()).reason(), "disk on fire");
}

#[test]
fn running_uninstall_has_no_notice_and_no_exit_code() {
    let mut config = Config::unset();
    config.downloads_dir = Some("/dl".to_string());
    config.installation_location = Some("/bin".to_string());
    for token in ["active", "stable", "v0.9.1"] {
        let uninstall = start(token, &config, None);
        assert!(!uninstall.is_finished());
        assert_eq!(uninstall.phase().exit_code(), None);
        assert_eq!(uninstall.phase().notice(), None);
    }
}
