use bob::config::Config;
use bob::directories::{
    get_downloads_directory, get_installation_directory, Directories, DirectoryError,
};
use bob::tracker::is_active;

fn configured() -> Config {
    let mut config = Config::unset();
    config.downloads_dir = Some("/srv/dl".to_string());
    config.installation_location = Some("/srv/bin".to_string());
    config
}

#[test]
fn configured_directory_wins() {
    let config = configured();
    assert_eq!(get_downloads_directory(&config, Some("/data")), Ok("/srv/dl".to_string()));
    assert_eq!(get_installation_directory(&config, Some("/data")), Ok("/srv/bin".to_string()));
    assert_eq!(get_downloads_directory(&config, None), Ok("/srv/dl".to_string()));
    assert_eq!(get_installation_directory(&config, None), Ok("/srv/bin".to_string()));
}

#[test]
fn default_lies_below_the_platform_directory() {
    let config = Config::unset();
    assert_eq!(
        get_downloads_directory(&config, Some("/home/u/.local/share")),
        Ok("/home/u/.local/share/bob/downloads".to_string())
    );
    assert_eq!(
        get_installation_directory(&config, Some("/home/u/.local/share")),
        Ok("/home/u/.local/share/bob/installed".to_string())
    );
}

#[test]
fn no_platform_directory_is_an_error() {
    let config = Config::unset();
    assert_eq!(get_downloads_directory(&config, None), Err(DirectoryError::NoPlatformDefault));
    assert_eq!(get_installation_directory(&config, None), Err(DirectoryError::NoPlatformDefault));
}

#[test]
fn each_directory_is_chosen_on_its_own() {
    let mut config = Config::unset();
    config.downloads_dir = Some("/srv/dl".to_string());
    let dirs = Directories::of(&config, None);
    assert_eq!(dirs.downloads, Some("/srv/dl".to_string()));
    assert_eq!(dirs.installation, None);
    let dirs = Directories::of(&config, Some("/data"));
    assert_eq!(dirs.downloads, Some("/srv/dl".to_string()));
    assert_eq!(dirs.installation, Some("/data/bob/installed".to_string()));
}

#[test]
fn no_marker_means_nothing_is_in_use() {
    assert!(!is_active("v0.9.1", None));
    assert!(!is_active("", None));
}

#[test]
fn marker_is_compared_in_canonical_form() {
    assert!(is_active("v0.9.1", Some("v0.9.1")));
    assert!(is_active("v0.9.1", Some("0.9.1")));
    assert!(is_active("0.9.1", Some("V0.9.1")));
    assert!(is_active("nightly", Some("nightly")));
    assert!(!is_active("v0.9.1", Some("v0.9.2")));
    assert!(!is_active("nightly", Some("Nightly")));
    assert!(!is_active("v0.9.1", Some("")));
}
