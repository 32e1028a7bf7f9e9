//! Initializing COM on a thread that may have been initialized by its host.

use vstd::prelude::*;

use crate::error::WindowsError;
use crate::platform::{
    already_initialized_code, changed_mode_code, ALREADY_INITIALIZED, CHANGED_MODE,
};

verus! {

/// Whether a failed initialization still leaves COM usable.
pub open spec fn com_usable_after(e: WindowsError) -> bool {
    e.code == ALREADY_INITIALIZED || e.code == CHANGED_MODE
}

/// Judges what initializing COM for multithreaded use came back with.
///
/// That COM is initialized already, even with another threading model, is no failure. Every
/// other error is handed on.
pub fn ensure_com_initialized(coinit_result: Result<(), WindowsError>) -> (r: Result<
    (),
    WindowsError,
>)
    ensures
        r is Ok <==> (coinit_result is Ok || com_usable_after(coinit_result->Err_0)),
        r is Err ==> r == coinit_result,
        r is Err <==> (coinit_result is Err && coinit_result->Err_0.code != ALREADY_INITIALIZED
            && coinit_result->Err_0.code != CHANGED_MODE),
{
    if let Err(e) = coinit_result {
        if e.code != already_initialized_code() && e.code != changed_mode_code() {
            return Err(e);
        }
    }
    Ok(())
}

} // verus!
