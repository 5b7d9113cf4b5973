//! Decisions of a connected stream: shutting down and preparing a peek.
use vstd::prelude::*;

use core::mem::MaybeUninit;

use crate::io_error::IoErrorKind;

verus! {

/// What `shutdown` reports for the outcome of shutting the socket down.
pub open spec fn spec_shutdown_result(outcome: Result<(), IoErrorKind>) -> Result<(), IoErrorKind> {
    match outcome {
        Ok(()) => Ok(()),
        Err(kind) => if kind is NotConnected {
            Ok(())
        } else {
            Err(kind)
        },
    }
}

/// Decides what `shutdown` reports: success when the socket was shut down or
/// was not connected (so that there was nothing left to shut down), and the
/// failure otherwise.
pub fn shutdown_result(outcome: Result<(), IoErrorKind>) -> (res: Result<(), IoErrorKind>)
    ensures
        res == spec_shutdown_result(outcome),
{
    match outcome {
        Ok(()) => Ok(()),
        Err(IoErrorKind::NotConnected) => Ok(()),
        Err(kind) => Err(kind),
    }
}

/// Initialises every byte of a peek buffer to zero, so that the buffer may be
/// handed on as initialised bytes.
pub fn zero_fill(buf: &mut [MaybeUninit<u8>])
    ensures
        final(buf)@.len() == old(buf)@.len(),
        forall|i: int|
            0 <= i < final(buf)@.len() ==> #[trigger] final(buf)@[i].as_option()
                == Some(0u8),
{
    let n = buf.len();
    let mut i: usize = 0;
    while i < n
        invariant
            n == buf@.len(),
            n == old(buf)@.len(),
            0 <= i <= n,
            forall|j: int| 0 <= j < i ==> #[trigger] buf@[j].as_option() == Some(0u8),
        decreases n - i,
    {
        buf[i] = MaybeUninit::new(0u8);
        i = i + 1;
    }
}

/// Shutting down reports a failure only when the socket failed for a reason
/// other than not being connected, and then reports that very failure.
pub proof fn lemma_shutdown_fails_only_when_connected(outcome: Result<(), IoErrorKind>)
    ensures
        spec_shutdown_result(outcome) is Err <==> (outcome matches Err(k) && !(k is NotConnected)),
        spec_shutdown_result(outcome) is Err ==> spec_shutdown_result(outcome) == outcome,
{
}

} // verus!
