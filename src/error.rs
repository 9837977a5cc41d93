//! Errors of the embedding, and the reading of `JNI_CreateJavaVM`'s status.

use vstd::prelude::*;

use crate::consts::JNI_OK;
use crate::types::Jint;

verus! {

/// What can go wrong while embedding the virtual machine.
#[derive(Debug)]
pub enum JniError {
    /// The shared library of the virtual machine could not be opened.
    LibraryNotFound { path: String, reason: String },
    /// The library holds no `JNI_CreateJavaVM` export.
    SymbolNotFound { symbol: String, reason: String },
    /// `JNI_CreateJavaVM` returned a status other than `JNI_OK`.
    CreationFailed { code: Jint },
    /// A step of the bootstrap protocol failed; `step` is the call that failed.
    BootstrapAborted { step: usize },
    /// An option slot beyond the buffer's capacity was addressed.
    OutOfRange { index: usize, capacity: usize },
}

/// Reads the status that `JNI_CreateJavaVM` returned: `JNI_OK` is success,
/// any other code is reported as it came.
pub fn check_creation_status(code: Jint) -> (r: Result<(), JniError>)
    ensures
        r is Ok <==> code == JNI_OK,
        r matches Err(e) ==> e == (JniError::CreationFailed { code }),
{
    if code == JNI_OK {
        Ok(())
    } else {
        Err(JniError::CreationFailed { code })
    }
}

} // verus!
