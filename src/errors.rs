//! The failure categories of the tool, each with a message and an exit code.
use vstd::prelude::*;

verus! {

/// A fatal condition; the process reports its message and exits with its code.
#[derive(Clone, Copy, Debug, PartialEq, Eq, Structural)]
pub enum Errors {
    CreatingConfigFile,
    ReadingConfigFile,
    WritingConfigFile,
    ParsingConfigFile,
    ConfigAlreadyExists,
    CouldNotExecuteWine,
    CouldNotCreatePrefix,
    NoExeProvided,
}

/// The exit code that stands for each category; zero is left for success.
pub open spec fn exit_code_of(e: Errors) -> i32 {
    match e {
        Errors::CreatingConfigFile => 1,
        Errors::ReadingConfigFile => 2,
        Errors::WritingConfigFile => 3,
        Errors::ParsingConfigFile => 4,
        Errors::ConfigAlreadyExists => 5,
        Errors::CouldNotExecuteWine => 6,
        Errors::CouldNotCreatePrefix => 7,
        Errors::NoExeProvided => 8,
    }
}

impl Errors {
    /// The process exit code for this category.
    pub fn code(&self) -> (r: i32)
        ensures
            r == exit_code_of(*self),
            1 <= r <= 8,
    {
        match self {
            Errors::CreatingConfigFile => 1,
            Errors::ReadingConfigFile => 2,
            Errors::WritingConfigFile => 3,
            Errors::ParsingConfigFile => 4,
            Errors::ConfigAlreadyExists => 5,
            Errors::CouldNotExecuteWine => 6,
            Errors::CouldNotCreatePrefix => 7,
            Errors::NoExeProvided => 8,
        }
    }

    /// The human-readable description printed before exiting.
    pub fn message(&self) -> (r: &'static str)
        ensures
            *self == Errors::CreatingConfigFile ==> r@ == "Failed creating config file"@,
            *self == Errors::ReadingConfigFile ==> r@ == "Failed reading config file"@,
            *self == Errors::WritingConfigFile ==> r@ == "Failed writing config file"@,
            *self == Errors::ParsingConfigFile ==> r@ == "Failed parsing config file"@,
            *self == Errors::ConfigAlreadyExists ==> r@ == "Configuration file already exists"@,
            *self == Errors::CouldNotExecuteWine ==> r@ == "Failed to execute wine runner"@,
            *self == Errors::CouldNotCreatePrefix ==> r@ == "Could not create prefix directory"@,
            *self == Errors::NoExeProvided ==> r@
                == "No executable was provided, either in wpfx.toml (as 'name') or as an argument to run"@,
    {
        match self {
            Errors::CreatingConfigFile => "Failed creating config file",
            Errors::ReadingConfigFile => "Failed reading config file",
            Errors::WritingConfigFile => "Failed writing config file",
            Errors::ParsingConfigFile => "Failed parsing config file",
            Errors::ConfigAlreadyExists => "Configuration file already exists",
            Errors::CouldNotExecuteWine => "Failed to execute wine runner",
            Errors::CouldNotCreatePrefix => "Could not create prefix directory",
            Errors::NoExeProvided => "No executable was provided, either in wpfx.toml (as 'name') or as an argument to run",
        }
    }
}

} // verus!
