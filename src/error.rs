use vstd::prelude::*;

verus! {

/// Every failure that a file operation reports.
///
/// A failure is built where it happens and handed to the caller unchanged:
/// no operation retries.
#[derive(Debug, PartialEq, Eq)]
pub enum Error {
    /// The local file system failed; `code` is the OS error code, if any.
    Io { code: Option<i32>, message: String },
    /// The remote transport failed before a response arrived.
    Transport(String),
    /// The remote origin answered with a status outside the success range.
    HttpStatus(u16),
    /// The response to a read carried no body.
    NoBody,
    /// The response to a metadata request had no usable length header.
    BadLength,
    /// The resource does not exist.
    NotFound,
    /// A relative seek would leave the range of `u64`, or a range request
    /// would end past it.
    Overflow,
    /// The backend does not offer this operation (a seek from the end on the
    /// remote backend).
    Unsupported,
    /// Another operation on the same handle has not finished yet.
    Busy,
    /// No origin could be found to resolve a remote path against.
    NoOrigin,
    /// A file is too large to be read into memory at once.
    TooLarge(u64),
}

} // verus!
