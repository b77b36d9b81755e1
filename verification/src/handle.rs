//! Process-wide initialization of Xlib.

use vstd::prelude::*;

verus! {

/// Initialization error.
#[derive(Debug)]
pub enum XlibInitError {
    AlreadyInitialized,
    /// The Xlib shared library could not be loaded at run time.
    LibraryLoadingError(String),
    /// Xlib refused to enable its thread support.
    XInitThreadsError,
}

/// Proof that Xlib has been initialized.
#[derive(Clone, Debug)]
pub struct XlibHandle;

impl XlibHandle {
    /// Creates the handle of a statically linked Xlib, which cannot fail.
    pub fn new() -> (r: Result<Self, XlibInitError>)
        ensures
            r is Ok,
    {
        Ok(XlibHandle)
    }

    /// Initializes Xlib once per process.
    ///
    /// `initialized` is the process-wide flag. The first call sets it and
    /// returns the handle; every later call is refused and leaves it set.
    pub fn initialize_xlib(initialized: &mut bool) -> (r: Result<Self, XlibInitError>)
        ensures
            *final(initialized),
            *old(initialized) <==> r is Err,
            r is Err ==> r->Err_0 is AlreadyInitialized,
    {
        if *initialized {
            Err(XlibInitError::AlreadyInitialized)
        } else {
            let xlib_handle = Self::new()?;
            *initialized = true;
            Ok(xlib_handle)
        }
    }
}

} // verus!
