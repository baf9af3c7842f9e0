//! Descriptions read from the foreign subsystem, as plain values.
//!
//! An output description carries the two fields the capture logic reads:
//! whether the output is attached to the desktop, and the handle of its
//! monitor. A texture description carries the flags that govern how a
//! texture may be used; [`derive_staging_desc`] turns the description of an
//! acquired frame into the description of its CPU-readable staging copy.

use vstd::prelude::*;

verus! {

/// Usage value of a staging texture: a pure transfer target that the GPU
/// pipeline cannot bind.
pub const D3D11_USAGE_STAGING: u32 = 3;

/// CPU-access flag granting read access to a mapped texture.
pub const D3D11_CPU_ACCESS_READ: u32 = 0x20000;

/// The highest eviction priority: pins a resource against being paged out of
/// fast GPU memory by the driver's own memory manager.
pub const DXGI_RESOURCE_PRIORITY_MAXIMUM: u32 = 0xA8000000;

/// Description of one display output, as the enumeration primitive reports
/// it.
#[derive(Clone, Copy, PartialEq, Eq, Structural, Debug)]
pub struct OutputDesc {
    /// Whether the output is currently attached to the desktop.
    pub attached_to_desktop: bool,
    /// Handle of the monitor this output drives, an index into the
    /// windowing subsystem's monitor table.
    pub monitor: usize,
}

/// Description of a two-dimensional texture.
#[derive(Clone, Copy, PartialEq, Eq, Structural, Debug)]
pub struct TextureDesc {
    pub width: u32,
    pub height: u32,
    pub format: u32,
    /// Usage class: default, immutable, dynamic or staging.
    pub usage: u32,
    /// GPU pipeline bind flags (render target, shader resource, ...).
    pub bind_flags: u32,
    /// CPU access flags (read, write).
    pub cpu_access_flags: u32,
    /// Miscellaneous resource options.
    pub misc_flags: u32,
}

/// An output description with every field cleared, standing for a
/// description that was never filled in.
pub open spec fn blank_output_desc() -> OutputDesc {
    OutputDesc { attached_to_desktop: false, monitor: 0 }
}

/// A texture description with every field cleared.
pub open spec fn blank_texture_desc() -> TextureDesc {
    TextureDesc {
        width: 0,
        height: 0,
        format: 0,
        usage: 0,
        bind_flags: 0,
        cpu_access_flags: 0,
        misc_flags: 0,
    }
}

/// The staging description derived from a source description: same size and
/// format, usage set to staging, every GPU-bind and miscellaneous flag
/// cleared, and CPU read access as the only access flag.
pub open spec fn spec_staging_desc(d: TextureDesc) -> TextureDesc {
    TextureDesc {
        width: d.width,
        height: d.height,
        format: d.format,
        usage: D3D11_USAGE_STAGING,
        bind_flags: 0,
        cpu_access_flags: D3D11_CPU_ACCESS_READ,
        misc_flags: 0,
    }
}

/// Derives the description of the CPU-readable staging copy of a frame
/// texture. Whatever bind, access or miscellaneous flags the source carries,
/// the result has staging usage, no bind flags, no miscellaneous flags, and
/// CPU read access alone; size and format are kept.
pub fn derive_staging_desc(d: &TextureDesc) -> (r: TextureDesc)
    ensures
        r == spec_staging_desc(*d),
        r.usage == D3D11_USAGE_STAGING,
        r.bind_flags == 0,
        r.cpu_access_flags == D3D11_CPU_ACCESS_READ,
        r.misc_flags == 0,
        r.width == d.width,
        r.height == d.height,
        r.format == d.format,
{
    TextureDesc {
        width: d.width,
        height: d.height,
        format: d.format,
        usage: D3D11_USAGE_STAGING,
        bind_flags: 0,
        cpu_access_flags: D3D11_CPU_ACCESS_READ,
        misc_flags: 0,
    }
}

} // verus!
