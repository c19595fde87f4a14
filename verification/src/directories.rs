//! Where releases are downloaded to and where the release in use is
//! installed: the configured directory, or else a default below the
//! platform's directory for user data.

use crate::config::{Config, ConfigView};
use crate::paths::{join, joined};
use crate::text::{ok_view, option_view};
use vstd::prelude::*;
use vstd::string::*;

verus! {

/// Why a directory could not be told.
#[derive(Clone, Copy, Debug, PartialEq, Eq, Structural)]
pub enum DirectoryError {
    /// The configuration names none, and the platform has no directory for
    /// user data.
    NoPlatformDefault,
}

/// The name of this tool's directory below the platform's directory.
pub open spec fn app_name() -> Seq<char> {
    seq!['b', 'o', 'b']
}

/// The name of the default downloads directory.
pub open spec fn downloads_name() -> Seq<char> {
    seq!['d', 'o', 'w', 'n', 'l', 'o', 'a', 'd', 's']
}

/// The name of the default installation directory.
pub open spec fn installation_name() -> Seq<char> {
    seq!['i', 'n', 's', 't', 'a', 'l', 'l', 'e', 'd']
}

/// The directory to use: the configured one if there is one, else `name` in
/// this tool's directory below `platform_root`, else an error.
///
/// Whether the directory exists on disk plays no part.
pub open spec fn chosen_directory(
    configured: Option<Seq<char>>,
    platform_root: Option<Seq<char>>,
    name: Seq<char>,
) -> Result<Seq<char>, DirectoryError> {
    match configured {
        Some(dir) => Ok(dir),
        None => match platform_root {
            Some(root) => Ok(joined(joined(root, app_name()), name)),
            None => Err(DirectoryError::NoPlatformDefault),
        },
    }
}

/// The downloads directory.
pub open spec fn downloads_directory(config: ConfigView, platform_root: Option<Seq<char>>)
    -> Result<Seq<char>, DirectoryError> {
    chosen_directory(config.downloads_dir, platform_root, downloads_name())
}

/// The installation directory.
pub open spec fn installation_directory(config: ConfigView, platform_root: Option<Seq<char>>)
    -> Result<Seq<char>, DirectoryError> {
    chosen_directory(config.installation_location, platform_root, installation_name())
}

/// The directories that an operation works in; `None` where one cannot be
/// told.
#[derive(Debug)]
pub struct Directories {
    /// The downloads directory.
    pub downloads: Option<String>,
    /// The installation directory.
    pub installation: Option<String>,
}

/// What [`Directories`] are, as a value.
pub struct DirectoriesView {
    pub downloads: Option<Seq<char>>,
    pub installation: Option<Seq<char>>,
}

impl View for Directories {
    type V = DirectoriesView;

    open spec fn view(&self) -> DirectoriesView {
        DirectoriesView {
            downloads: option_view(self.downloads),
            installation: option_view(self.installation),
        }
    }
}

/// The directories that a configuration and a platform give.
pub open spec fn directories_of(config: ConfigView, platform_root: Option<Seq<char>>)
    -> DirectoriesView {
    DirectoriesView {
        downloads: match downloads_directory(config, platform_root) {
            Ok(dir) => Some(dir),
            Err(_) => None,
        },
        installation: match installation_directory(config, platform_root) {
            Ok(dir) => Some(dir),
            Err(_) => None,
        },
    }
}

/// The directory to use for `name`.
fn choose_directory(configured: &Option<String>, platform_root: Option<&str>, name: &str) -> (r:
    Result<String, DirectoryError>)
    ensures
        ok_view(r) == chosen_directory(option_view(*configured), option_view(platform_root), name@),
{
    match configured {
        Some(dir) => Ok(dir.clone()),
        None => match platform_root {
            Some(root) => {
                proof {
                    reveal_strlit("bob");
                    assert("bob"@ =~= app_name());
                }
                let app = join(root, "bob");
                Ok(join(app.as_str(), name))
            },
            None => Err(DirectoryError::NoPlatformDefault),
        },
    }
}

/// The downloads directory, given the platform's directory for user data.
pub fn get_downloads_directory(config: &Config, platform_root: Option<&str>) -> (r: Result<
    String,
    DirectoryError,
>)
    ensures
        ok_view(r) == downloads_directory(config@, option_view(platform_root)),
{
    proof {
        reveal_strlit("downloads");
        assert("downloads"@ =~= downloads_name());
    }
    choose_directory(&config.downloads_dir, platform_root, "downloads")
}

/// The installation directory, given the platform's directory for user data.
pub fn get_installation_directory(config: &Config, platform_root: Option<&str>) -> (r: Result<
    String,
    DirectoryError,
>)
    ensures
        ok_view(r) == installation_directory(config@, option_view(platform_root)),
{
    proof {
        reveal_strlit("installed");
        assert("installed"@ =~= installation_name());
    }
    choose_directory(&config.installation_location, platform_root, "installed")
}

impl Directories {
    /// The directories that `config` and the platform give.
    pub fn of(config: &Config, platform_root: Option<&str>) -> (r: Directories)
        ensures
            r@ == directories_of(config@, option_view(platform_root)),
    {
        let downloads = match get_downloads_directory(config, platform_root) {
            Ok(dir) => Some(dir),
            Err(_) => None,
        };
        let installation = match get_installation_directory(config, platform_root) {
            Ok(dir) => Some(dir),
            Err(_) => None,
        };
        Directories { downloads, installation }
    }
}

} // verus!
