//! The process access of a platform without one: every request is refused.

use vstd::prelude::*;
use crate::errors::{ConnectError, ErrorView, NativeError, unsupported_message, unsupported_text};
use crate::offsets::WuwaOffset;

verus! {

/// Process access on an operating system that offers none to this program.
pub struct PlatformProc;

impl PlatformProc {
    /// Attaching is refused on this platform.
    pub fn new(_name: &str) -> (r: Result<PlatformProc, ConnectError>)
        ensures
            r matches Err(e) && e == ConnectError::UnsupportedPlatform && e.text() == unsupported_text(),
    {
        Err(ConnectError::UnsupportedPlatform)
    }

    /// Locating is refused on this platform.
    pub fn get_location(&mut self, _available_offsets: &Option<Vec<WuwaOffset>>) -> (r: Result<(), NativeError>)
        ensures
            r matches Err(e) && e@ == ErrorView::PointerChainError(unsupported_text()),
    {
        Err(NativeError::PointerChainError { message: unsupported_message() })
    }

    /// No offsets are ever in use here.
    pub fn get_active_offset_name(&self) -> (r: Option<String>)
        ensures
            r is None,
    {
        None
    }
}

} // verus!
