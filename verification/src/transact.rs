//! The transaction discipline around one collection window.
//!
//! A request is sent once; the caller then collects every frame that
//! arrives before the window's first timeout.  The timeout is the normal
//! end-of-window signal, not an error — except at call sites where at
//! least one response is owed, where an empty window escalates to a
//! caller-visible no-response condition naming the probed device.

use vstd::prelude::*;

use crate::error::RmuError;

verus! {

/// Close a collection window that saw `frames_received` frames.  When
/// `require_response` is set, an empty window is the caller-visible
/// failure `NoResponse`; otherwise an empty window is ordinary success.
pub fn close_window(frames_received: usize, require_response: bool, device_id: u8) -> (r: Result<
    (),
    RmuError,
>)
    ensures
        r == (if frames_received == 0 && require_response {
            Err::<(), RmuError>(RmuError::NoResponse { device_id })
        } else {
            Ok::<(), RmuError>(())
        }),
{
    if frames_received == 0 && require_response {
        Err(RmuError::NoResponse { device_id })
    } else {
        Ok(())
    }
}

} // verus!
