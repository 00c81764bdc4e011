//! A safety layer over a native desktop windowing subsystem.
//!
//! The library models the core of a window-handling engine: the translation of
//! raw native notifications into a typed event model, the association of a
//! per-window state record with a native window handle (including the
//! creation-time bootstrap through a thread staging slot), the strong/weak
//! split of handle references across threads, the dispatch routing of each
//! notification, and the exactly-once release discipline of owned native
//! resources (window classes, brushes, icons, menus, notification icons).
//!
//! The native layer itself (window creation, message retrieval, the shell's
//! notification-icon calls, menu tracking) is a collaborator: the library
//! takes its raw results as plain values and hands back the requests it must
//! perform, so every decision in between is verified.

use vstd::prelude::*;

pub mod brush;
pub mod class;
pub mod dispatch;
pub mod event;
pub mod handle;
pub mod icon;
pub mod menu;
pub mod notifyicon;
pub mod wide;
pub mod window;

verus! {

/// The facility code that window-system error codes carry in a result code.
pub const FACILITY_WIN32: u32 = 7;

/// The platform's code for a window handle that no longer names a live window.
pub const ERROR_INVALID_WINDOW_HANDLE: u32 = 1400;

/// The platform's code for an argument a call rejects outright.
pub const ERROR_INVALID_PARAMETER: u32 = 87;

/// A platform error code, as the native layer reports it.
#[derive(Clone, Copy, Debug, PartialEq, Eq, Structural)]
pub struct Error {
    pub code: u32,
}

/// The signed platform-style result code that a given error code maps to:
/// a code that is already a failure code (high bit set) passes through;
/// any other code keeps its low 16 bits and gains the failure bit and the
/// window-system facility. The value is the two's-complement reading of
/// those 32 bits.
pub open spec fn spec_hresult(code: u32) -> int {
    if code >= 0x8000_0000 {
        code - 0x1_0000_0000
    } else {
        ((code & 0xFFFF) | 0x8007_0000) - 0x1_0000_0000
    }
}

impl Error {
    /// Wraps a raw platform error code.
    pub fn from_raw(code: u32) -> (r: Error)
        ensures
            r.code == code,
    {
        Error { code }
    }

    /// The raw platform error code.
    pub fn as_raw(&self) -> (r: u32)
        ensures
            r == self.code,
    {
        self.code
    }

    /// Converts the error to a platform-style signed result code.
    pub fn into_hresult(&self) -> (r: i32)
        ensures
            r == spec_hresult(self.code),
    {
        let code: u32 = self.code;
        let bits: u32 = if code >= 0x8000_0000 {
            code
        } else {
            (code & 0xFFFF) | 0x8007_0000
        };
        proof {
            assert(bits >= 0x8000_0000) by (bit_vector)
                requires
                    bits == if code >= 0x8000_0000 {
                        code
                    } else {
                        (code & 0xFFFF) | 0x8007_0000u32
                    },
            ;
        }
        let r: i32 = #[verifier::truncate] (bits as i32);
        proof {
            assert(bits as i32 == bits - 0x1_0000_0000) by (bit_vector)
                requires
                    bits >= 0x8000_0000,
            ;
        }
        r
    }
}

/// Maps the result of a native call that reports failure by returning zero:
/// zero becomes an error carrying the platform's last error code reported
/// alongside it; any other return means the call succeeded.
pub fn call_outcome(ret: i32, last_error: u32) -> (r: Result<(), Error>)
    ensures
        ret == 0 ==> r == Result::<(), Error>::Err(Error { code: last_error }),
        ret != 0 ==> r == Result::<(), Error>::Ok(()),
{
    if ret == 0 {
        Err(Error::from_raw(last_error))
    } else {
        Ok(())
    }
}

} // verus!
