//! Where the configuration and the standard library come from, and the errors
//! that end a run before any file is looked at.

use vstd::prelude::*;
use vstd::string::*;

verus! {

/// Name of the configuration file looked for when none is given.
pub const DEFAULT_CONFIG_FILE: &'static str = "selene.toml";

/// Extension of configuration and standard-library files.
pub const CONFIG_EXTENSION: &'static str = ".toml";

/// What came of trying to read a file.
#[derive(Clone, Debug, PartialEq, Eq)]
pub enum FileRead {
    Contents(String),
    /// The file could not be read, for the reason given.
    Failed(String),
}

/// An error that ends the run before any target is processed.
#[derive(Clone, Debug, PartialEq, Eq)]
pub enum FatalError {
    /// The configuration file that was named could not be read.
    ConfigUnreadable(String),
    /// A configuration file was read but is not valid.
    ConfigMalformed(String),
    /// A custom standard-library file was read but is not valid.
    StdMalformed(String),
    /// No file and no built-in preset has this name.
    UnknownStd(String),
    /// The engine refused the configuration.
    Engine(String),
    /// The file search pattern is not a valid glob.
    InvalidPattern(String),
}

/// What to do to obtain the configuration.
#[derive(Clone, Debug, PartialEq, Eq)]
pub enum ConfigPlan {
    /// Use the built-in default configuration.
    Default,
    /// Parse these contents as the configuration.
    Parse(String),
    Fatal(FatalError),
}

/// What to do to obtain the standard library.
#[derive(Clone, Debug, PartialEq, Eq)]
pub enum StdPlan {
    /// Parse these contents as a custom definition, then inflate it.
    ParseCustom(String),
    /// Look the selector up among the built-in presets.
    ByName,
}

pub open spec fn message_spec(e: FatalError) -> Seq<char> {
    match e {
        FatalError::ConfigUnreadable(m) => "Couldn't read config file: "@ + m@,
        FatalError::ConfigMalformed(m) => "Config file not in correct format: "@ + m@,
        FatalError::StdMalformed(m) => "Custom standard library wasn't formatted properly: "@ + m@,
        FatalError::UnknownStd(sel) => "Unknown standard library '"@ + sel@ + "'"@,
        FatalError::Engine(m) => m@,
        FatalError::InvalidPattern(m) => "Invalid glob pattern: "@ + m@,
    }
}

impl FatalError {
    /// The text reported for this error.
    pub fn message(&self) -> (r: String)
        ensures
            r@ == message_spec(*self),
    {
        match self {
            FatalError::ConfigUnreadable(m) => {
                String::from_str("Couldn't read config file: ").concat(m.as_str())
            },
            FatalError::ConfigMalformed(m) => {
                String::from_str("Config file not in correct format: ").concat(m.as_str())
            },
            FatalError::StdMalformed(m) => {
                String::from_str("Custom standard library wasn't formatted properly: ").concat(
                    m.as_str(),
                )
            },
            FatalError::UnknownStd(sel) => {
                String::from_str("Unknown standard library '").concat(sel.as_str()).concat("'")
            },
            FatalError::Engine(m) => m.clone(),
            FatalError::InvalidPattern(m) => {
                String::from_str("Invalid glob pattern: ").concat(m.as_str())
            },
        }
    }
}

/// The configuration file to read: the one given, else the conventional one
/// in the working directory.
pub fn config_path(explicit: &Option<String>) -> (r: String)
    ensures
        explicit matches Some(p) ==> r@ == p@,
        explicit is None ==> r@ == DEFAULT_CONFIG_FILE@,
{
    match explicit {
        Some(p) => p.clone(),
        None => String::from_str(DEFAULT_CONFIG_FILE),
    }
}

/// Decides how to obtain the configuration once its file was tried. A file
/// that was named and cannot be read is fatal; a missing conventional file
/// means the default configuration. Contents read either way are parsed.
pub fn config_plan(explicit: bool, read: FileRead) -> (r: ConfigPlan)
    ensures
        read matches FileRead::Contents(c) ==> r == ConfigPlan::Parse(c),
        read matches FileRead::Failed(m) ==> (explicit ==> r == ConfigPlan::Fatal(
            FatalError::ConfigUnreadable(m),
        )),
        read is Failed ==> (!explicit ==> r == ConfigPlan::Default),
{
    match read {
        FileRead::Contents(c) => ConfigPlan::Parse(c),
        FileRead::Failed(m) => {
            if explicit {
                ConfigPlan::Fatal(FatalError::ConfigUnreadable(m))
            } else {
                ConfigPlan::Default
            }
        },
    }
}

/// The file that may hold a custom standard library named `selector`.
pub fn std_file_name(selector: &str) -> (r: String)
    ensures
        r@ == selector@ + CONFIG_EXTENSION@,
{
    String::from_str(selector).concat(CONFIG_EXTENSION)
}

/// Decides how to obtain the standard library once its file was tried: a
/// file that exists is used, otherwise the selector names a preset.
pub fn std_plan(read: FileRead) -> (r: StdPlan)
    ensures
        read matches FileRead::Contents(c) ==> r == StdPlan::ParseCustom(c),
        read is Failed ==> r == StdPlan::ByName,
{
    match read {
        FileRead::Contents(c) => StdPlan::ParseCustom(c),
        FileRead::Failed(_) => StdPlan::ByName,
    }
}

/// The result of looking `selector` up among the presets: a preset that is
/// missing is fatal.
pub fn preset_lookup(selector: &str, found: bool) -> (r: Result<(), FatalError>)
    ensures
        found ==> r is Ok,
        !found ==> (r matches Err(FatalError::UnknownStd(s)) && s@ == selector@),
{
    if found {
        Ok(())
    } else {
        Err(FatalError::UnknownStd(String::from_str(selector)))
    }
}

} // verus!
