use vstd::prelude::*;

verus! {

/// The single error kind of this layer: a non-zero status code reported by
/// the native library, preserved verbatim and not interpreted further.
#[derive(Clone, Copy, Debug, PartialEq, Eq, Structural)]
pub enum Error {
    NativeLibraryError(i32),
}

/// Result type returned by every fallible operation of this layer.
pub type FtResult<T> = Result<T, Error>;

impl Error {
    /// The native status code this error carries.
    pub open spec fn spec_code(self) -> i32 {
        match self {
            Error::NativeLibraryError(code) => code,
        }
    }

    /// The native status code this error carries.
    pub fn code(&self) -> (code: i32)
        ensures
            code == self.spec_code(),
    {
        match self {
            Error::NativeLibraryError(code) => *code,
        }
    }
}

/// Translates a native status code: the sentinel zero means success, any
/// other code is surfaced verbatim as an error.
pub fn status_to_result(status: i32) -> (r: FtResult<()>)
    ensures
        status == 0 <==> r is Ok,
        status != 0 ==> r == FtResult::<()>::Err(Error::NativeLibraryError(status)),
{
    if status == 0 {
        Ok(())
    } else {
        Err(Error::NativeLibraryError(status))
    }
}

} // verus!
