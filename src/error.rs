use vstd::prelude::*;

verus! {

/// Every fault the session manager reports. Each carries a message that
/// explains the underlying cause.
#[derive(Debug, Clone)]
pub enum VsmRuntimeFault {
    /// A required environment variable is not defined.
    EnvironmentVariable { msg: String },
    /// Launching or waiting on an external process failed.
    CommandExecutor { msg: String },
    /// The settings file could not be read or parsed.
    TomlConfigFileRead { msg: String },
    /// The settings file could not be serialized or written.
    TomlConfigFileWrite { msg: String },
    /// None of the catalog's variants is installed; the message lists those tried.
    NoSupportedVimVariantFound { msg: String },
    /// An interactive prompt was cancelled or failed.
    SelectionFailure { msg: String },
    /// Deleting a session file failed.
    SessionFileRemoval { msg: String },
}

impl VsmRuntimeFault {
    /// The message carried by the fault.
    pub open spec fn spec_msg(&self) -> Seq<char> {
        match self {
            VsmRuntimeFault::EnvironmentVariable { msg } => msg@,
            VsmRuntimeFault::CommandExecutor { msg } => msg@,
            VsmRuntimeFault::TomlConfigFileRead { msg } => msg@,
            VsmRuntimeFault::TomlConfigFileWrite { msg } => msg@,
            VsmRuntimeFault::NoSupportedVimVariantFound { msg } => msg@,
            VsmRuntimeFault::SelectionFailure { msg } => msg@,
            VsmRuntimeFault::SessionFileRemoval { msg } => msg@,
        }
    }

    /// Returns the message carried by the fault.
    pub fn msg(&self) -> (r: &String)
        ensures
            r@ == self.spec_msg(),
    {
        match self {
            VsmRuntimeFault::EnvironmentVariable { msg } => msg,
            VsmRuntimeFault::CommandExecutor { msg } => msg,
            VsmRuntimeFault::TomlConfigFileRead { msg } => msg,
            VsmRuntimeFault::TomlConfigFileWrite { msg } => msg,
            VsmRuntimeFault::NoSupportedVimVariantFound { msg } => msg,
            VsmRuntimeFault::SelectionFailure { msg } => msg,
            VsmRuntimeFault::SessionFileRemoval { msg } => msg,
        }
    }
}

} // verus!
