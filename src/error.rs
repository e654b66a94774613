use vstd::prelude::*;

verus! {

/// The three ways a repository operation can fail.
#[derive(Debug, Clone, PartialEq, Eq)]
pub enum DomainError {
    /// The storage engine failed (I/O, constraint violation, malformed query).
    Storage(String),
    /// A point lookup by identifier found no record.
    NotFound,
    /// A stored or caller-supplied value has the wrong shape.
    InvalidData(String),
}

/// The error type of the repository capabilities.
pub type RepoError = DomainError;

/// The human-readable description of an error.
pub open spec fn error_text(e: DomainError) -> Seq<char> {
    match e {
        DomainError::Storage(m) => "storage error: "@ + m@,
        DomainError::NotFound => "record not found"@,
        DomainError::InvalidData(m) => "invalid data: "@ + m@,
    }
}

impl DomainError {
    /// The human-readable description of the error.
    pub fn message(&self) -> (r: String)
        ensures
            r@ == error_text(*self),
    {
        match self {
            DomainError::Storage(m) => String::from_str("storage error: ").concat(m.as_str()),
            DomainError::NotFound => String::from_str("record not found"),
            DomainError::InvalidData(m) => String::from_str("invalid data: ").concat(m.as_str()),
        }
    }
}

} // verus!
