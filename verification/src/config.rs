//! The persisted settings record and where it is kept.

use vstd::prelude::*;
use crate::text::text_of;

verus! {

/// The settings a user has stored: every field may be absent, and an absent
/// field falls through to the other sources of a request.
#[derive(Debug, Clone, PartialEq, Eq)]
pub struct Config {
    /// Credential for the generation service.
    pub openai_key: Option<String>,
    /// Default AWS CLI profile for generated snippets.
    pub default_profile: Option<String>,
    /// Default AWS region for generated snippets.
    pub default_region: Option<String>,
    /// Default language model.
    pub model: Option<String>,
}

/// What a [`Config`] holds, as mathematical values.
pub struct ConfigView {
    pub openai_key: Option<Seq<char>>,
    pub default_profile: Option<Seq<char>>,
    pub default_region: Option<Seq<char>>,
    pub model: Option<Seq<char>>,
}

impl View for Config {
    type V = ConfigView;

    open spec fn view(&self) -> ConfigView {
        ConfigView {
            openai_key: text_of(self.openai_key),
            default_profile: text_of(self.default_profile),
            default_region: text_of(self.default_region),
            model: text_of(self.model),
        }
    }
}

impl ConfigView {
    /// The record with every field absent.
    pub open spec fn empty() -> ConfigView {
        ConfigView { openai_key: None, default_profile: None, default_region: None, model: None }
    }
}

impl Default for Config {
    fn default() -> (cfg: Config)
        ensures
            cfg@ == ConfigView::empty(),
    {
        Config { openai_key: None, default_profile: None, default_region: None, model: None }
    }
}

/// The directory that holds the application's files, below the base.
pub const APP_DIRECTORY: &'static str = "coto";

/// The settings file's name.
pub const FILE_NAME: &'static str = "config.toml";

/// The per-user configuration directory, below the home directory.
pub const HOME_CONFIG_DIRECTORY: &'static str = ".config";

/// Where the settings file lies: a base directory the machine gave, and the
/// names to go down from there, the file's own name last.
#[derive(Debug, Clone, PartialEq, Eq)]
pub struct ConfigPath<P> {
    pub base: P,
    pub below: Vec<&'static str>,
}

/// Why the settings file has no place.
#[derive(Debug, Clone, Copy, PartialEq, Eq)]
pub enum ConfigError {
    /// No configuration directory is set and no home directory is known.
    NoHomeDirectory,
}

impl ConfigError {
    /// What to tell the user about this error.
    pub open spec fn message_text(self) -> Seq<char> {
        "Could not determine home directory"@
    }

    /// The diagnostic for this error.
    pub fn message(&self) -> (text: &'static str)
        ensures
            text@ == self.message_text(),
    {
        "Could not determine home directory"
    }
}

/// The names that lead from the base to the settings file.
pub open spec fn names_below(under_home: bool) -> Seq<Seq<char>> {
    if under_home {
        seq![HOME_CONFIG_DIRECTORY@, APP_DIRECTORY@, FILE_NAME@]
    } else {
        seq![APP_DIRECTORY@, FILE_NAME@]
    }
}

impl<P> ConfigPath<P> {
    /// The names below the base, as mathematical values.
    pub open spec fn below_text(self) -> Seq<Seq<char>> {
        self.below@.map_values(|name: &'static str| name@)
    }
}

impl Config {
    /// Decides where the settings file lies: below the configuration
    /// directory where the user has set one, else below `.config` in the home
    /// directory. The caller creates the directories on the way.
    pub fn path<P>(config_home: Option<P>, home: Option<P>) -> (place: Result<
        ConfigPath<P>,
        ConfigError,
    >)
        ensures
            match config_home {
                Some(dir) => place matches Ok(path) && path.base == dir && path.below_text()
                    == names_below(false),
                None => match home {
                    Some(dir) => place matches Ok(path) && path.base == dir && path.below_text()
                        == names_below(true),
                    None => place == Err::<ConfigPath<P>, ConfigError>(
                        ConfigError::NoHomeDirectory,
                    ),
                },
            },
    {
        let mut below: Vec<&'static str> = Vec::new();
        let base = match config_home {
            Some(dir) => dir,
            None => match home {
                Some(dir) => {
                    below.push(HOME_CONFIG_DIRECTORY);
                    dir
                },
                None => {
                    return Err(ConfigError::NoHomeDirectory);
                },
            },
        };
        below.push(APP_DIRECTORY);
        below.push(FILE_NAME);
        let path = ConfigPath { base, below };
        assert(path.below_text() =~= names_below(config_home is None));
        Ok(path)
    }

    /// What a load yields: the record that the settings file holds, or the
    /// defaults where there is no such file.
    pub fn load(stored: Option<Config>) -> (cfg: Config)
        ensures
            cfg@ == match stored {
                Some(found) => found@,
                None => ConfigView::empty(),
            },
    {
        match stored {
            Some(found) => found,
            None => Config::default(),
        }
    }
}

} // verus!
