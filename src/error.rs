use vstd::prelude::*;

verus! {

/// Why a propagation in either direction failed.
#[derive(Clone, Copy, Debug, PartialEq, Eq, Structural)]
pub enum SyncError {
    /// The input-source list yields no keyboard layout.
    InvalidLayout,
    /// A stored value does not have one of the shapes its key admits.
    InvalidValue,
}

/// The log line of an error.
pub open spec fn error_text(e: SyncError) -> Seq<char> {
    match e {
        SyncError::InvalidLayout => "Invalid keyboard layout or variant"@,
        SyncError::InvalidValue => "Invalid settings value"@,
    }
}

impl SyncError {
    /// A one-line description for the log.
    pub fn message(&self) -> (r: &'static str)
        ensures
            r@ == error_text(*self),
    {
        match self {
            SyncError::InvalidLayout => "Invalid keyboard layout or variant",
            SyncError::InvalidValue => "Invalid settings value",
        }
    }
}

} // verus!
