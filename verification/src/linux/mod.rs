//! Linux: the X11 protocol and the compositors that are asked through helper tools.

pub mod executable;
pub mod platform_api;
pub mod session_bus;
pub mod wayland;

use platform_api::LinuxPlatformApi;
use vstd::prelude::*;

verus! {

/// The platform for this system: it holds no state, so making it cannot
/// fail.
pub fn init_platform_api() -> (api: LinuxPlatformApi)
    ensures
        api == (LinuxPlatformApi {  }),
{
    LinuxPlatformApi {  }
}

} // verus!
