use vstd::prelude::*;

verus! {

/// Why a query produced no byte count.
#[derive(Debug, Clone, Copy, PartialEq, Eq)]
pub enum QueryError {
    /// The kernel refused or failed the request. The field is the platform's
    /// own error code, exactly as the platform reported it.
    Os(i32),
    /// The target has no way to ask; see [`crate::placeholder_impl`].
    NotImplemented,
}

impl QueryError {
    /// The platform error code that this failure carries, if it came from the
    /// platform.
    pub open spec fn code(self) -> Option<i32> {
        match self {
            QueryError::Os(code) => Some(code),
            QueryError::NotImplemented => None,
        }
    }

    /// The fixed text of a failure that does not come from the platform. A
    /// platform failure has no text here: the platform words its own codes.
    pub open spec fn fixed_text(self) -> Option<Seq<char>> {
        match self {
            QueryError::Os(_) => None,
            QueryError::NotImplemented => Some("not implemented"@),
        }
    }

    /// Gives back the platform's error code, for a caller that wants to hand
    /// the failure on as a platform error.
    pub fn raw_os_error(&self) -> (code: Option<i32>)
        ensures
            code == self.code(),
    {
        match self {
            QueryError::Os(code) => Some(*code),
            QueryError::NotImplemented => None,
        }
    }

    /// The fixed message of a failure that the platform did not produce.
    pub fn message(&self) -> (message: Option<&'static str>)
        ensures
            message is Some <==> self.fixed_text() is Some,
            message is Some ==> message.unwrap()@ == self.fixed_text().unwrap(),
    {
        match self {
            QueryError::Os(_) => None,
            QueryError::NotImplemented => Some("not implemented"),
        }
    }
}

} // verus!
