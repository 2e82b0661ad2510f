//! Where the configuration lies on disk, which files of the projects
//! directory are project files, and what is said when loading fails.

use crate::context::{pushed, Context, push_component};
use crate::text::str_eq;
use vstd::prelude::*;
use vstd::string::*;

verus! {

/// The name of the file of the daemon's own settings.
pub const CONFIG_FILE_NAME: &'static str = "toby.toml";

/// The name of the file of the tokens.
pub const TOKENS_FILE_NAME: &'static str = "tokens.toml";

/// The name of the directory of the project files.
pub const PROJECTS_DIR_NAME: &'static str = "projects.d";

/// Why the configuration could not be loaded.
#[derive(Debug, PartialEq, Eq)]
pub enum ConfigError {
    /// The file at this path does not exist.
    NotFound(String),
    /// The project files could not be listed, for this reason.
    ListError(String),
    /// The file at this path could not be read, for this reason.
    ReadError(String, String),
    /// The file at this path is not a valid configuration, for this reason.
    ParseError(String, String),
}

impl ConfigError {
    /// The error as a person reads it.
    pub open spec fn spec_description(&self) -> Seq<char> {
        match self {
            ConfigError::NotFound(path) => "Config file "@ + path@ + " does not exist"@,
            ConfigError::ListError(reason) => "Unable to list project config files:\n"@
                + reason@,
            ConfigError::ReadError(path, reason) => "Unable to read config file "@ + path@
                + ":\n"@ + reason@,
            ConfigError::ParseError(path, reason) => "Error parsing config file "@ + path@
                + ":\n"@ + reason@,
        }
    }

    /// The error as a person reads it.
    pub fn description(&self) -> (r: String)
        ensures
            r@ == self.spec_description(),
    {
        match self {
            ConfigError::NotFound(path) => {
                let r = String::from_str("Config file ").concat(path.as_str()).concat(
                    " does not exist",
                );
                assert(r@ =~= self.spec_description());
                r
            },
            ConfigError::ListError(reason) => String::from_str(
                "Unable to list project config files:\n",
            ).concat(reason.as_str()),
            ConfigError::ReadError(path, reason) => {
                let r = String::from_str("Unable to read config file ").concat(
                    path.as_str(),
                ).concat(":\n").concat(reason.as_str());
                assert(r@ =~= self.spec_description());
                r
            },
            ConfigError::ParseError(path, reason) => {
                let r = String::from_str("Error parsing config file ").concat(
                    path.as_str(),
                ).concat(":\n").concat(reason.as_str());
                assert(r@ =~= self.spec_description());
                r
            },
        }
    }
}

/// The name of the project that the file named `file_name` configures: the
/// file's name without `.toml` at its end. Files of other names, and the file
/// whose whole name is `.toml`, configure no project.
pub open spec fn spec_project_name(file_name: Seq<char>) -> Option<Seq<char>> {
    if file_name.len() > 5 && file_name.skip(file_name.len() - 5) == ".toml"@ {
        Some(file_name.take(file_name.len() - 5))
    } else {
        None
    }
}

/// The name of the project that the file named `file_name` configures, if it
/// is a project file: `dreams` for `dreams.toml`.
pub fn project_name(file_name: &str) -> (r: Option<&str>)
    ensures
        match r {
            Some(name) => spec_project_name(file_name@) == Some(name@),
            None => spec_project_name(file_name@) is None,
        },
{
    let n = file_name.unicode_len();
    if n <= 5 {
        return None;
    }
    let extension = file_name.substring_char(n - 5, n);
    assert(extension@ =~= file_name@.skip(n - 5));
    if str_eq(extension, ".toml") {
        let name = file_name.substring_char(0, n - 5);
        assert(name@ =~= file_name@.take(n - 5));
        Some(name)
    } else {
        None
    }
}

/// Finds the files of the configuration of one installation.
#[derive(Debug)]
pub struct ConfigLoader<'a> {
    context: &'a Context,
}

impl<'a> ConfigLoader<'a> {
    /// The installation.
    pub closed spec fn spec_context(&self) -> Context {
        *self.context
    }

    /// The loader for the configuration of `context`.
    pub fn new(context: &'a Context) -> (r: ConfigLoader<'a>)
        ensures
            r.spec_context() == *context,
    {
        ConfigLoader { context }
    }

    /// The file of the daemon's own settings.
    pub fn main_config_file(&self) -> (r: String)
        ensures
            r@ == pushed(self.spec_context()@.config_path, "toby.toml"@),
    {
        push_component(self.context.config_path(), CONFIG_FILE_NAME)
    }

    /// The file of the tokens.
    pub fn tokens_file(&self) -> (r: String)
        ensures
            r@ == pushed(self.spec_context()@.config_path, "tokens.toml"@),
    {
        push_component(self.context.config_path(), TOKENS_FILE_NAME)
    }

    /// The directory of the project files.
    pub fn projects_dir(&self) -> (r: String)
        ensures
            r@ == pushed(self.spec_context()@.config_path, "projects.d"@),
    {
        push_component(self.context.config_path(), PROJECTS_DIR_NAME)
    }

    /// The file of the settings that go by `name`: `<name>.toml` in the
    /// configuration directory.
    pub fn custom_file(&self, name: &str) -> (r: String)
        ensures
            r@ == pushed(self.spec_context()@.config_path, name@ + ".toml"@),
    {
        let file = String::from_str(name).concat(".toml");
        push_component(self.context.config_path(), file.as_str())
    }
}

} // verus!
