//! What the renderer asks of the GPU at startup, as a plain description.

use vstd::prelude::*;

verus! {

/// The graphics backends to choose among.
#[derive(Clone, Copy, Debug, PartialEq, Eq, Structural)]
pub struct Backends {
    pub vulkan: bool,
    pub gl: bool,
    pub metal: bool,
    pub dx12: bool,
    pub dx11: bool,
    pub browser_webgpu: bool,
}

/// The kind of adapter to prefer.
#[derive(Clone, Copy, Debug, PartialEq, Eq, Structural)]
pub enum PowerPreference {
    LowPower,
    HighPerformance,
}

/// A named set of limits to ask of the device.
#[derive(Clone, Copy, Debug, PartialEq, Eq, Structural)]
pub enum Limits {
    Defaults,
    DownlevelDefaults,
    DownlevelWebgl2Defaults,
}

/// The instance, adapter and device to ask for.
#[derive(Clone, Copy, Debug, PartialEq, Eq, Structural)]
pub struct ContextRequest {
    pub backends: Backends,
    pub power_preference: PowerPreference,
    pub force_fallback_adapter: bool,
    /// Whether the adapter has to be able to present to the surface.
    pub compatible_with_surface: bool,
    /// Whether any optional feature of the device is asked for.
    pub features: bool,
    pub limits: Limits,
}

/// The primary backends: the native ones, without the fallbacks.
pub open spec fn primary_backends() -> Backends {
    Backends { vulkan: true, gl: false, metal: true, dx12: true, dx11: false, browser_webgpu: true }
}

/// A high-performance adapter of a primary backend that can present to the
/// surface and is no fallback, and a device with no optional feature and the
/// downlevel limits.
pub open spec fn context_request() -> ContextRequest {
    ContextRequest {
        backends: primary_backends(),
        power_preference: PowerPreference::HighPerformance,
        force_fallback_adapter: false,
        compatible_with_surface: true,
        features: false,
        limits: Limits::DownlevelDefaults,
    }
}

impl ContextRequest {
    /// Describes what the renderer asks of the GPU.
    pub fn build() -> (request: ContextRequest)
        ensures
            request == context_request(),
    {
        ContextRequest {
            backends: Backends {
                vulkan: true,
                gl: false,
                metal: true,
                dx12: true,
                dx11: false,
                browser_webgpu: true,
            },
            power_preference: PowerPreference::HighPerformance,
            force_fallback_adapter: false,
            compatible_with_surface: true,
            features: false,
            limits: Limits::DownlevelDefaults,
        }
    }
}

} // verus!
