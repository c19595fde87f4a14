//! The configuration: its fields, and how it is loaded.
//!
//! A path-valued field may name an environment variable as `$NAME`, with
//! `NAME` in capitals and underscores. Loading replaces the variable by its
//! value, once, and fails if the variable is not set.

use crate::environment::Environment;
use crate::pattern::{captured, first_capture, pattern_accepted};
use crate::text::{followed_by, option_view, replace_all, replaced, result_view};
use vstd::prelude::*;
use vstd::string::*;

verus! {

/// The pattern of a variable in a field: group 1 is the variable's name.
pub const PLACEHOLDER: &'static str = "\\$([A-Z_]+)";

/// The settings of one run. A field that is `None` takes its default.
#[derive(Debug)]
pub struct Config {
    /// Whether to show details of the nightly release.
    pub enable_nightly_info: Option<bool>,
    /// Where releases are downloaded to.
    pub downloads_dir: Option<String>,
    /// Where the release in use is installed.
    pub installation_location: Option<String>,
    /// The file that pins a version.
    pub sync_version_file_path: Option<String>,
    /// How many nightly releases are kept for rolling back.
    pub rollback_limit: Option<u8>,
}

/// What a [`Config`] is, as a value.
pub struct ConfigView {
    pub enable_nightly_info: Option<bool>,
    pub downloads_dir: Option<Seq<char>>,
    pub installation_location: Option<Seq<char>>,
    pub sync_version_file_path: Option<Seq<char>>,
    pub rollback_limit: Option<u8>,
}

impl View for Config {
    type V = ConfigView;

    open spec fn view(&self) -> ConfigView {
        ConfigView {
            enable_nightly_info: self.enable_nightly_info,
            downloads_dir: option_view(self.downloads_dir),
            installation_location: option_view(self.installation_location),
            sync_version_file_path: option_view(self.sync_version_file_path),
            rollback_limit: self.rollback_limit,
        }
    }
}

impl ConfigView {
    /// The configuration that sets nothing.
    pub open spec fn unset() -> ConfigView {
        ConfigView {
            enable_nightly_info: None,
            downloads_dir: None,
            installation_location: None,
            sync_version_file_path: None,
            rollback_limit: None,
        }
    }
}

/// Why a configuration could not be loaded.
#[derive(Debug, PartialEq, Eq)]
pub enum ConfigError {
    /// The file is not a configuration.
    Malformed,
    /// The engine refused the pattern of a variable.
    Pattern,
    /// A field names this variable, and it is not set.
    MissingVariable(String),
}

/// What a [`ConfigError`] is, as a value.
pub enum ConfigErrorView {
    Malformed,
    Pattern,
    MissingVariable(Seq<char>),
}

impl View for ConfigError {
    type V = ConfigErrorView;

    open spec fn view(&self) -> ConfigErrorView {
        match self {
            ConfigError::Malformed => ConfigErrorView::Malformed,
            ConfigError::Pattern => ConfigErrorView::Pattern,
            ConfigError::MissingVariable(name) => ConfigErrorView::MissingVariable(name@),
        }
    }
}

/// What was found where the configuration file is kept.
#[derive(Debug)]
pub enum ConfigFile {
    /// No file could be read.
    Unreadable,
    /// A file was read, and it is not a configuration.
    Malformed,
    /// A file was read, and these are its fields.
    Parsed(Config),
}

/// What a [`ConfigFile`] is, as a value.
pub enum ConfigFileView {
    Unreadable,
    Malformed,
    Parsed(ConfigView),
}

impl View for ConfigFile {
    type V = ConfigFileView;

    open spec fn view(&self) -> ConfigFileView {
        match self {
            ConfigFile::Unreadable => ConfigFileView::Unreadable,
            ConfigFile::Malformed => ConfigFileView::Malformed,
            ConfigFile::Parsed(config) => ConfigFileView::Parsed(config@),
        }
    }
}

/// What a field's value becomes, given the name that the engine found in it.
///
/// Without a name the value stands. With one, every `$name` in the value is
/// replaced by the variable's value; it is an error if the variable is not
/// set.
pub open spec fn substituted(
    value: Seq<char>,
    found: Option<Seq<char>>,
    env: Map<Seq<char>, Seq<char>>,
) -> Result<Seq<char>, ConfigErrorView> {
    match found {
        None => Ok(value),
        Some(name) => if env.contains_key(name) {
            Ok(replaced(value, seq!['$'] + name, env[name]))
        } else {
            Err(ConfigErrorView::MissingVariable(name))
        },
    }
}

/// What a field becomes when the configuration is loaded.
pub open spec fn expanded(item: Option<Seq<char>>, env: Map<Seq<char>, Seq<char>>) -> Result<
    Option<Seq<char>>,
    ConfigErrorView,
> {
    match item {
        None => Ok(None),
        Some(value) => if !pattern_accepted(PLACEHOLDER@) {
            Err(ConfigErrorView::Pattern)
        } else {
            match substituted(value, captured(PLACEHOLDER@, value, 1), env) {
                Ok(v) => Ok(Some(v)),
                Err(e) => Err(e),
            }
        },
    }
}

/// What the three path-valued fields become, taken in the order downloads
/// directory, installation location, version file. The first error ends the
/// pass; the fields before it keep their new values.
pub open spec fn with_variables(config: ConfigView, env: Map<Seq<char>, Seq<char>>) -> (
    ConfigView,
    Option<ConfigErrorView>,
) {
    match expanded(config.downloads_dir, env) {
        Err(e) => (config, Some(e)),
        Ok(downloads_dir) => {
            let first = ConfigView { downloads_dir, ..config };
            match expanded(config.installation_location, env) {
                Err(e) => (first, Some(e)),
                Ok(installation_location) => {
                    let second = ConfigView { installation_location, ..first };
                    match expanded(config.sync_version_file_path, env) {
                        Err(e) => (second, Some(e)),
                        Ok(sync_version_file_path) => (
                            ConfigView { sync_version_file_path, ..second },
                            None,
                        ),
                    }
                },
            }
        },
    }
}

/// The configuration that loading yields.
///
/// Without a readable file every field takes its default. A file that is not
/// a configuration is an error. The fields of one that is have their
/// variables replaced.
pub open spec fn loaded(file: ConfigFileView, env: Map<Seq<char>, Seq<char>>) -> Result<
    ConfigView,
    ConfigErrorView,
> {
    match file {
        ConfigFileView::Unreadable => Ok(ConfigView::unset()),
        ConfigFileView::Malformed => Err(ConfigErrorView::Malformed),
        ConfigFileView::Parsed(config) => match with_variables(config, env).1 {
            Some(e) => Err(e),
            None => Ok(with_variables(config, env).0),
        },
    }
}

impl Config {
    /// The configuration that sets nothing.
    pub fn unset() -> (r: Config)
        ensures
            r@ == ConfigView::unset(),
    {
        Config {
            enable_nightly_info: None,
            downloads_dir: None,
            installation_location: None,
            sync_version_file_path: None,
            rollback_limit: None,
        }
    }
}

/// Replaces in `value` the variable that the engine found in it.
///
/// `found` is the name in the first `$NAME` of `value`, or `None` if there
/// is none.
pub fn substitute(value: &str, found: Option<&str>, env: &Environment) -> (r: Result<
    String,
    ConfigError,
>)
    ensures
        result_view(r) == substituted(value@, option_view(found), env@),
{
    match found {
        None => Ok(String::from_str(value)),
        Some(name) => match env.get(name) {
            Some(with) => {
                proof {
                    reveal_strlit("$");
                    assert("$"@ =~= seq!['$']);
                }
                let token = followed_by("$", name);
                Ok(replace_all(value, token.as_str(), with))
            },
            None => Err(ConfigError::MissingVariable(String::from_str(name))),
        },
    }
}

/// Replaces the variable in one field, if the field is set and names one.
///
/// On an error the field is left as it was.
pub fn handle_envar(item: &mut Option<String>, env: &Environment) -> (r: Result<(), ConfigError>)
    ensures
        match r {
            Ok(()) => expanded(option_view(*old(item)), env@) == Ok::<
                Option<Seq<char>>,
                ConfigErrorView,
            >(option_view(*final(item))),
            Err(e) => expanded(option_view(*old(item)), env@) == Err::<
                Option<Seq<char>>,
                ConfigErrorView,
            >(e@) && *final(item) == *old(item),
        },
{
    let result = match item.as_ref() {
        None => {
            return Ok(());
        },
        Some(value) => match first_capture(PLACEHOLDER, value.as_str(), 1) {
            Err(_) => Err(ConfigError::Pattern),
            Ok(None) => substitute(value.as_str(), None, env),
            Ok(Some(name)) => substitute(value.as_str(), Some(name.as_str()), env),
        },
    };
    match result {
        Ok(value) => {
            *item = Some(value);
            Ok(())
        },
        Err(e) => Err(e),
    }
}

/// Replaces the variables in the path-valued fields of `config`.
pub fn handle_envars(config: &mut Config, env: &Environment) -> (r: Result<(), ConfigError>)
    ensures
        final(config)@ == with_variables(old(config)@, env@).0,
        match r {
            Ok(()) => with_variables(old(config)@, env@).1 is None,
            Err(e) => with_variables(old(config)@, env@).1 == Some(e@),
        },
{
    match handle_envar(&mut config.downloads_dir, env) {
        Err(e) => {
            return Err(e);
        },
        Ok(()) => {},
    }
    match handle_envar(&mut config.installation_location, env) {
        Err(e) => {
            return Err(e);
        },
        Ok(()) => {},
    }
    handle_envar(&mut config.sync_version_file_path, env)
}

/// Loads the configuration from what was found where its file is kept.
pub fn handle_config(file: ConfigFile, env: &Environment) -> (r: Result<Config, ConfigError>)
    ensures
        result_view(r) == loaded(file@, env@),
{
    match file {
        ConfigFile::Unreadable => Ok(Config::unset()),
        ConfigFile::Malformed => Err(ConfigError::Malformed),
        ConfigFile::Parsed(config) => {
            let mut config = config;
            match handle_envars(&mut config, env) {
                Ok(()) => Ok(config),
                Err(e) => Err(e),
            }
        },
    }
}

} // verus!
