//! Which rendering interface the attached process draws with.

use vstd::prelude::*;

verus! {

#[derive(Clone, Copy, Debug, PartialEq, Eq, Structural)]
pub enum RenderingAPI {
    Dx11,
    Dx12,
}

/// Tells the interface from the handle of the Direct3D 12 core module, as
/// the loader gave it: a process that has not loaded that module, so that
/// the handle is null, draws with Direct3D 11.
pub fn detect_api(dx12: isize) -> (api: RenderingAPI)
    ensures
        api == if dx12 == 0 {
            RenderingAPI::Dx11
        } else {
            RenderingAPI::Dx12
        },
{
    if dx12 == 0 {
        return RenderingAPI::Dx11;
    }
    return RenderingAPI::Dx12;
}

} // verus!
