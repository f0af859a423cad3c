//! The failures of parsing a document and of reading the build's environment.
use vstd::prelude::*;
use vstd::string::*;

verus! {

/// Why an operation of the resource failed.
#[derive(Debug, Clone)]
pub enum ResourceError {
    /// The JSON document could not be read or written; holds the parser's
    /// diagnostic as it gave it.
    SerdeError(String),
    /// A required environment variable is not set.
    VarError { name: String },
}

impl ResourceError {
    /// The text that describes the failure.
    pub open spec fn message_spec(&self) -> Seq<char> {
        match self {
            ResourceError::SerdeError(m) => m@,
            ResourceError::VarError { name } => "`"@ + name@ + "` is not set"@,
        }
    }

    /// The text that describes the failure: the parser's diagnostic unchanged,
    /// or the name of the missing variable.
    pub fn message(&self) -> (r: String)
        ensures
            r@ == self.message_spec(),
    {
        match self {
            ResourceError::SerdeError(m) => m.clone(),
            ResourceError::VarError { name } => {
                let mut r = String::from_str("`");
                r.append(name.as_str());
                r.append("` is not set");
                r
            },
        }
    }
}

} // verus!
