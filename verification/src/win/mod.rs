//! Windows: the system names one foreground window and nothing more.

pub mod platform_api;
pub mod window_position;

use platform_api::WindowsPlatformApi;
use vstd::prelude::*;

verus! {

/// The platform for this system: it holds no state, so making it cannot
/// fail.
pub fn init_platform_api() -> (api: WindowsPlatformApi)
    ensures
        api == (WindowsPlatformApi {  }),
{
    WindowsPlatformApi {  }
}

} // verus!
