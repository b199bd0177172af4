//! The configuration of the application: what the configuration file
//! holds, and how the command line overrides it.

use vstd::prelude::*;
use crate::action::Mode;
use crate::bindings::{bound_in, default_tables, or_else, KeyBindings};
use crate::keys::KeyEvent;
use crate::error::Error;
use crate::text::{chars_of, push_str, string_from};

verus! {

/// The name of the application, as it appears in paths.
pub open spec fn app_name() -> Seq<char> {
    "sympil"@
}

/// The name of the application, as it appears in paths.
pub fn name() -> (name: &'static str)
    ensures
        name@ == app_name(),
{
    "sympil"
}

/// What the application says of its version: the version, an empty
/// line, the authors, and an empty line with an indented line behind it.
pub open spec fn version_text(release: Seq<char>, authors: Seq<char>) -> Seq<char> {
    release + "\n\nAuthors: "@ + authors + "\n\n        "@
}

/// The text that the application shows for its version, from the
/// version and the authors that it was built with.
pub fn version(release: &str, authors: &str) -> (text: String)
    ensures
        text@ == version_text(release@, authors@),
{
    let mut out: Vec<char> = Vec::new();
    push_str(&mut out, release);
    push_str(&mut out, "\n\nAuthors: ");
    push_str(&mut out, authors);
    push_str(&mut out, "\n\n        ");
    string_from(&out)
}

/// The general settings of the application.
#[derive(Debug, PartialEq, Eq)]
pub struct AppConfig {
    pub log_level: String,
    pub app_data_path: String,
    pub popup_timeout: i64,
    pub username: Option<String>,
    pub password: Option<String>,
}

/// A copy of an optional string.
pub fn clone_option(text: &Option<String>) -> (copy: Option<String>)
    ensures
        copy == *text,
{
    match text {
        Some(s) => Some(s.clone()),
        None => None,
    }
}

impl Clone for AppConfig {
    fn clone(&self) -> (copy: AppConfig)
        ensures
            copy == *self,
    {
        AppConfig {
            log_level: self.log_level.clone(),
            app_data_path: self.app_data_path.clone(),
            popup_timeout: self.popup_timeout,
            username: clone_option(&self.username),
            password: clone_option(&self.password),
        }
    }
}

/// The default settings: data under `~/.sympil`, log level `info`,
/// popups that stay five seconds, no account.
impl Default for AppConfig {
    fn default() -> (config: AppConfig)
        ensures
            config.app_data_path@ == "~/."@ + app_name(),
            config.log_level@ == "info"@,
            config.popup_timeout == 5,
            config.username.is_none(),
            config.password.is_none(),
    {
        let mut path: Vec<char> = Vec::new();
        push_str(&mut path, "~/.");
        push_str(&mut path, name());
        let log_level = String::from_str("info");
        AppConfig {
            app_data_path: string_from(&path),
            log_level,
            popup_timeout: 5,
            username: None,
            password: None,
        }
    }
}

/// The settings of the database.
#[derive(Debug, PartialEq, Eq)]
pub struct DatabaseConfig {
    pub db_type: String,
}

impl Clone for DatabaseConfig {
    fn clone(&self) -> (copy: DatabaseConfig)
        ensures
            copy == *self,
    {
        DatabaseConfig { db_type: self.db_type.clone() }
    }
}

/// The default database lives in memory.
impl Default for DatabaseConfig {
    fn default() -> (config: DatabaseConfig)
        ensures
            config.db_type@ == "memory"@,
    {
        DatabaseConfig { db_type: String::from_str("memory") }
    }
}

/// What the command line says, as far as the configuration goes.
#[derive(Debug, PartialEq, Eq)]
pub struct Args {
    pub web: bool,
    pub username: Option<String>,
    pub password: Option<String>,
    pub config_file: String,
    pub app_data_path: String,
    pub log_level: String,
}

impl Clone for Args {
    fn clone(&self) -> (copy: Args)
        ensures
            copy == *self,
    {
        Args {
            web: self.web,
            username: clone_option(&self.username),
            password: clone_option(&self.password),
            config_file: self.config_file.clone(),
            app_data_path: self.app_data_path.clone(),
            log_level: self.log_level.clone(),
        }
    }
}

/// The configuration for the application
#[derive(Debug, PartialEq, Eq)]
pub struct AppConfiguration {
    pub config: AppConfig,
    pub databaseconfig: DatabaseConfig,
    pub keybindings: KeyBindings,
}

impl Clone for AppConfiguration {
    fn clone(&self) -> (copy: AppConfiguration)
        ensures
            copy.config == self.config,
            copy.databaseconfig == self.databaseconfig,
            copy.keybindings.tables() == self.keybindings.tables(),
    {
        AppConfiguration {
            config: self.config.clone(),
            databaseconfig: self.databaseconfig.clone(),
            keybindings: self.keybindings.clone(),
        }
    }
}

impl Default for AppConfiguration {
    fn default() -> (configuration: AppConfiguration)
        ensures
            configuration.config.app_data_path@ == "~/."@ + app_name(),
            configuration.config.log_level@ == "info"@,
            configuration.config.popup_timeout == 5,
            configuration.config.username.is_none(),
            configuration.config.password.is_none(),
            configuration.databaseconfig.db_type@ == "memory"@,
            configuration.keybindings.tables() == default_tables(),
            configuration.keybindings.wf(),
    {
        AppConfiguration {
            config: AppConfig::default(),
            databaseconfig: DatabaseConfig::default(),
            keybindings: KeyBindings::default(),
        }
    }
}

/// Where the configuration file lies under the directory `config_path`.
pub open spec fn config_file_under(config_path: Seq<char>) -> Seq<char> {
    config_path + "/config.toml"@
}

impl AppConfiguration {
    /// Initialize the application with the passed arguments and with
    /// what came of loading the configuration file. A file that could
    /// not be loaded counts as the default configuration. The default
    /// key bindings fill in what the file does not bind, and the
    /// command line overrides the file.
    pub fn init(loaded: Result<AppConfiguration, Error>, app_args: Args) -> (r: Result<
        AppConfiguration,
        Error,
    >)
        ensures
            r matches Ok(cfg) && ({
                &&& forall|mode: Mode, keys: Seq<KeyEvent>| #[trigger]
                    cfg.keybindings.lookup(mode, keys) == or_else(
                        match loaded {
                            Ok(file) => file.keybindings.lookup(mode, keys),
                            Err(_) => None,
                        },
                        bound_in(default_tables(), mode, keys),
                    )
                &&& match loaded {
                    Ok(file) => {
                        &&& cfg.config.popup_timeout == file.config.popup_timeout
                        &&& cfg.databaseconfig == file.databaseconfig
                        &&& cfg.config.log_level@ == if app_args.log_level@.len() > 0 {
                            app_args.log_level@
                        } else {
                            file.config.log_level@
                        }
                        &&& cfg.config.app_data_path@ == if app_args.app_data_path@.len() > 0 {
                            app_args.app_data_path@
                        } else {
                            file.config.app_data_path@
                        }
                        &&& cfg.config.username == if app_args.username.is_some() {
                            file.config.username
                        } else {
                            None
                        }
                        &&& cfg.config.password == if app_args.password.is_some() {
                            file.config.password
                        } else {
                            None
                        }
                    },
                    Err(_) => {
                        &&& cfg.config.popup_timeout == 5
                        &&& cfg.databaseconfig.db_type@ == "memory"@
                        &&& cfg.config.log_level@ == if app_args.log_level@.len() > 0 {
                            app_args.log_level@
                        } else {
                            "info"@
                        }
                        &&& cfg.config.app_data_path@ == if app_args.app_data_path@.len() > 0 {
                            app_args.app_data_path@
                        } else {
                            "~/."@ + app_name()
                        }
                        &&& cfg.config.username.is_none()
                        &&& cfg.config.password.is_none()
                    },
                }
            }),
    {
        let mut cfg = match loaded {
            Ok(cfg) => cfg,
            Err(_) => AppConfiguration::default(),
        };
        let default_config = AppConfiguration::default();
        let ghost before = cfg.keybindings;
        proof {
            if loaded.is_err() {
                assert forall|mode: Mode, keys: Seq<KeyEvent>| #[trigger]
                    before.lookup(mode, keys) == bound_in(
                        default_tables(),
                        mode,
                        keys,
                    ) by {}
            }
        }
        cfg.keybindings.merge_defaults(&default_config.keybindings);
        proof {
            assert forall|mode: Mode, keys: Seq<KeyEvent>| #[trigger]
                cfg.keybindings.lookup(mode, keys) == or_else(
                    match loaded {
                        Ok(file) => file.keybindings.lookup(mode, keys),
                        Err(_) => None,
                    },
                    bound_in(default_tables(), mode, keys),
                ) by {
                assert(cfg.keybindings.lookup(mode, keys) == before.merged_lookup(
                    default_config.keybindings,
                    mode,
                    keys,
                ));
                assert(default_config.keybindings.lookup(mode, keys) == bound_in(
                    default_tables(),
                    mode,
                    keys,
                ));
                if loaded.is_err() {
                    assert(before.lookup(mode, keys) == bound_in(
                        default_tables(),
                        mode,
                        keys,
                    ));
                }
            }
        }
        cfg.configure(app_args);
        Ok(cfg)
    }

    /// Configure the app with the args passed. A log level and a data
    /// path given on the command line replace those of the file. An
    /// account name or password of the file stays only where the
    /// command line gives one too; else it is dropped.
    pub fn configure(&mut self, args: Args)
        ensures
            final(self).config.log_level == if args.log_level@.len() == 0 {
                old(self).config.log_level
            } else {
                args.log_level
            },
            final(self).config.app_data_path == if args.app_data_path@.len() == 0 {
                old(self).config.app_data_path
            } else {
                args.app_data_path
            },
            final(self).config.username == if args.username.is_some() {
                old(self).config.username
            } else {
                None
            },
            final(self).config.password == if args.password.is_some() {
                old(self).config.password
            } else {
                None
            },
            final(self).config.popup_timeout == old(self).config.popup_timeout,
            final(self).databaseconfig == old(self).databaseconfig,
            final(self).keybindings == old(self).keybindings,
    {
        if !args.log_level.as_str().is_empty() {
            self.config.log_level = args.log_level;
        }
        if args.username.is_none() {
            self.config.username = None;
        }
        if args.password.is_none() {
            self.config.password = None;
        }
        if !args.app_data_path.as_str().is_empty() {
            self.config.app_data_path = args.app_data_path;
        }
    }

    /// Checks `config` before it is written below the directory
    /// `config_path`, and says to which file it goes. Settings without a
    /// data path are refused.
    pub fn update(config: &AppConfig, config_path: &str) -> (r: Result<String, Error>)
        ensures
            match r {
                Ok(file) => config.app_data_path@.len() > 0 && file@ == config_file_under(
                    config_path@,
                ),
                Err(e) => config.app_data_path@.len() == 0 && e == Error::InvalidAppDataPath,
            },
    {
        if config.app_data_path.as_str().is_empty() {
            return Err(Error::InvalidAppDataPath);
        }
        let mut file: Vec<char> = chars_of(config_path);
        push_str(&mut file, "/config.toml");
        Ok(string_from(&file))
    }
}

} // verus!
