use vstd::prelude::*;

use crate::state::LedState;

verus! {

/// Whether an HTTP status code reports success: 200 to 299.
pub fn is_success_status(status: u16) -> (r: bool)
    ensures
        r <==> 200 <= status <= 299,
{
    200 <= status && status <= 299
}

/// The state after a network poll: `Clear` when it succeeded, `Error` when it failed.
pub fn state_after_poll(succeeded: bool) -> (r: LedState)
    ensures
        r == (if succeeded {
            LedState::Clear
        } else {
            LedState::Error
        }),
{
    if succeeded {
        LedState::Clear
    } else {
        LedState::Error
    }
}

} // verus!
