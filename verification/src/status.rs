//! Status codes of the host's object protocol.
use vstd::prelude::*;

verus! {

/// A status code of the host's object protocol. A negative code reports a
/// failure; zero and the positive codes report success.
#[derive(Clone, Copy, Debug, PartialEq, Eq, Structural)]
pub struct HResult(pub i32);

/// Success.
pub const S_OK: i32 = 0;

/// Success, with the answer "no" (`0x00000001`).
pub const S_FALSE: i32 = 1;

/// The object does not play the requested role (`0x80004002`).
pub const E_NOINTERFACE: i32 = -2147467262;

/// The operation has no implementation (`0x80004001`).
pub const E_NOTIMPL: i32 = -2147467263;

/// No further object can be created (`0x8007000E`).
pub const E_OUTOFMEMORY: i32 = -2147024882;

/// The module does not serve the requested class (`0x80040111`).
pub const CLASS_E_CLASSNOTAVAILABLE: i32 = -2147221231;

/// The call is not valid in the state that the object is in (`0x8000000E`).
pub const E_ILLEGAL_METHOD_CALL: i32 = -2147483634;

/// The status that stands for a system error code: zero stays zero, any other
/// code becomes a failure of facility 7 that carries the code's low 16 bits.
pub open spec fn hresult_from_win32(code: u32) -> int {
    if code == 0 {
        0
    } else {
        (code % 0x1_0000) - 0x7FF9_0000
    }
}

impl HResult {
    /// Whether the code reports a failure.
    pub open spec fn failed(self) -> bool {
        self.0 < 0
    }

    /// Whether the code reports a failure.
    pub fn is_err(self) -> (r: bool)
        ensures
            r == self.failed(),
    {
        self.0 < 0
    }

    /// Whether the code reports success.
    pub fn is_ok(self) -> (r: bool)
        ensures
            r == !self.failed(),
    {
        self.0 >= 0
    }

    /// The status for a system error code, as the registry calls report one.
    pub fn from_win32(code: u32) -> (r: HResult)
        ensures
            r.0 == hresult_from_win32(code),
            r.failed() <==> code != 0,
    {
        HResult(win32_to_hresult(code))
    }
}

/// Calls `windows::Win32::Foundation::WIN32_ERROR::to_hresult`. The contract
/// restates its one expression: zero is kept, and any other code has its low
/// 16 bits joined with the failure bit and facility 7.
#[verifier::external_body]
fn win32_to_hresult(code: u32) -> (r: i32)
    ensures
        r == hresult_from_win32(code),
{
    windows::Win32::Foundation::WIN32_ERROR(code).to_hresult().0
}

} // verus!
