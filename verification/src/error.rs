use vstd::prelude::*;

verus! {

/// Errors of the library, each carrying a human-readable message.
#[derive(Debug)]
pub enum Error {
    /// A configuration value (such as an HDFS path or URL) is invalid.
    ConfigInvalid { message: String },
    /// A requested feature or value is not supported.
    Unsupported { message: String },
    /// Stored data, or a selector over it, is invalid.
    DataInvalid { message: String },
    /// An unexpected failure.
    UnexpectedError { message: String },
}

impl Error {
    /// The message of the error, whatever its kind.
    pub open spec fn spec_message(&self) -> Seq<char> {
        match self {
            Error::ConfigInvalid { message } => message@,
            Error::Unsupported { message } => message@,
            Error::DataInvalid { message } => message@,
            Error::UnexpectedError { message } => message@,
        }
    }

    /// The message of the error.
    pub fn message(&self) -> (res: &str)
        ensures
            res@ == self.spec_message(),
    {
        match self {
            Error::ConfigInvalid { message } => message.as_str(),
            Error::Unsupported { message } => message.as_str(),
            Error::DataInvalid { message } => message.as_str(),
            Error::UnexpectedError { message } => message.as_str(),
        }
    }

    /// The text a user sees for the error: its message.
    pub fn to_string(&self) -> (res: String)
        ensures
            res@ == self.spec_message(),
    {
        String::from_str(self.message())
    }
}

/// Errors of query planning and execution over tables.
#[derive(Debug)]
pub enum PlanError {
    /// The operation is not implemented for this table.
    NotImplemented(String),
    /// An internal invariant of the plan does not hold.
    Internal(String),
    /// The query cannot be planned as asked.
    Plan(String),
}

impl PlanError {
    /// The message of the error, whatever its kind.
    pub open spec fn spec_message(&self) -> Seq<char> {
        match self {
            PlanError::NotImplemented(message) => message@,
            PlanError::Internal(message) => message@,
            PlanError::Plan(message) => message@,
        }
    }

    /// The text a user sees for the error: its message.
    pub fn to_string(&self) -> (res: String)
        ensures
            res@ == self.spec_message(),
    {
        match self {
            PlanError::NotImplemented(message) => message.clone(),
            PlanError::Internal(message) => message.clone(),
            PlanError::Plan(message) => message.clone(),
        }
    }
}

} // verus!
