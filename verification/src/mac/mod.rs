//! macOS: the system lists every window on screen with its owner.

pub mod platform_api;
pub mod window_position;

use platform_api::MacPlatformApi;
use vstd::prelude::*;

verus! {

/// The platform for this system: it holds no state, so making it cannot
/// fail.
pub fn init_platform_api() -> (api: MacPlatformApi)
    ensures
        api == (MacPlatformApi {  }),
{
    MacPlatformApi {  }
}

} // verus!
