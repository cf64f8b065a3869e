use vstd::prelude::*;

verus! {

/// The ways in which loading a value from a user-supplied location can fail.
///
/// Construction-time failures are fatal and bubble out to the argument
/// parser; reload-time failures are reported and leave the current value
/// unchanged.
#[derive(Debug, Clone, PartialEq, Eq)]
pub enum LoadError {
    /// The user-supplied string is not a valid path or URL
    LocationParse {
        /// What the location parser reported
        message: String,
    },
    /// A file open, file read, or HTTP transport failure
    Fetch {
        /// The location whose fetch failed
        location: String,
        /// What the fetch reported
        message: String,
        /// The HTTP status code, where one applies
        status: Option<u16>,
    },
    /// The fetched bytes do not parse under the chosen format
    Decode {
        /// What the underlying deserializer reported
        message: String,
    },
    /// The notification backend refused to register a watch
    WatchSetup {
        /// What the notification backend reported
        message: String,
    },
}

impl LoadError {
    /// The human-readable description carried by this error
    pub fn message(&self) -> (r: &String)
        ensures
            r == self.message_spec(),
    {
        match self {
            LoadError::LocationParse { message } => message,
            LoadError::Fetch { message, .. } => message,
            LoadError::Decode { message } => message,
            LoadError::WatchSetup { message } => message,
        }
    }

    /// The description an error of each kind carries
    pub open spec fn message_spec(&self) -> &String {
        match self {
            LoadError::LocationParse { message } => message,
            LoadError::Fetch { message, .. } => message,
            LoadError::Decode { message } => message,
            LoadError::WatchSetup { message } => message,
        }
    }
}

} // verus!
