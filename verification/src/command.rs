//! The commands that the library hands to whoever owns the GPU: plain
//! descriptions of what to do with the surface, the staging buffer, the
//! uniform buffer and a frame.

use vstd::prelude::*;

verus! {

/// A size in physical pixels.
#[derive(Clone, Copy, Debug, PartialEq, Eq, Structural)]
pub struct PhysicalSize {
    pub width: u32,
    pub height: u32,
}

/// What a texture may be used for.
#[derive(Clone, Copy, Debug, PartialEq, Eq, Structural)]
pub struct TextureUsages {
    pub copy_src: bool,
    pub copy_dst: bool,
    pub texture_binding: bool,
    pub storage_binding: bool,
    pub render_attachment: bool,
}

/// How finished frames reach the screen.
#[derive(Clone, Copy, Debug, PartialEq, Eq, Structural)]
pub enum PresentMode {
    AutoVsync,
    AutoNoVsync,
    Fifo,
    FifoRelaxed,
    Immediate,
    Mailbox,
}

/// A configuration of the surface; `F` is the type by which the owner of the
/// GPU names pixel formats.
#[derive(Debug, PartialEq, Eq)]
pub struct SurfaceConfiguration<F> {
    pub usage: TextureUsages,
    pub format: F,
    pub width: u32,
    pub height: u32,
    pub present_mode: PresentMode,
}

/// The record that the fragment stage reads: the size of the viewport, which
/// it reads as two single-precision floats, and the field of view.
#[derive(Clone, Copy, Debug, PartialEq, Eq, Structural)]
pub struct Uniforms {
    pub dimensions: PhysicalSize,
    /// The bits of a single-precision float.
    pub field_of_view: u32,
}

/// The field of view: the single-precision float nearest to pi, as its bits.
pub const FIELD_OF_VIEW: u32 = 0x4049_0fdb;

/// Bytes that a `Uniforms` record takes in a buffer: three floats.
pub const UNIFORMS_SIZE: u64 = 12;

/// A colour with each channel in 255ths.
#[derive(Clone, Copy, Debug, PartialEq, Eq, Structural)]
pub struct Color {
    pub r: u8,
    pub g: u8,
    pub b: u8,
    pub a: u8,
}

/// One render pass with one draw call and no vertex buffer.
#[derive(Clone, Copy, Debug, PartialEq, Eq, Structural)]
pub struct RenderPass {
    /// The colour that the frame is cleared to before the draw.
    pub clear: Color,
    /// Whether what is drawn is written to the frame.
    pub store: bool,
    /// The set at which the dither texture's binding group is bound.
    pub dither_group: u32,
    /// The set at which the uniform buffer's binding group is bound.
    pub uniform_group: u32,
    /// Vertices drawn, starting at vertex 0.
    pub vertices: u32,
    /// Instances drawn, starting at instance 0.
    pub instances: u32,
}

/// One step for the owner of the GPU to carry out.
#[derive(Debug, PartialEq, Eq)]
pub enum Command<F> {
    /// Wait until the re-map of the staging buffer that was asked for last
    /// has completed.
    AwaitStaging,
    /// Configure the surface.
    ConfigureSurface(SurfaceConfiguration<F>),
    /// Write the record into the mapped staging buffer.
    WriteStaging(Uniforms),
    /// Unmap the staging buffer.
    UnmapStaging,
    /// Record a copy of `size` bytes from the start of the staging buffer to
    /// the start of the uniform buffer, and submit it.
    CopyStagingToUniform { size: u64 },
    /// Ask for the staging buffer to be mapped for writing again, without
    /// waiting for it.
    MapStaging,
    /// Acquire the next image of the surface.
    AcquireFrame,
    /// Record the pass on the acquired image with the pipeline bound, and
    /// submit it.
    Render(RenderPass),
    /// Present the acquired image.
    Present,
}

impl<F: Copy> Clone for SurfaceConfiguration<F> {
    fn clone(&self) -> (copy: Self)
        ensures
            copy == *self,
    {
        *self
    }
}

impl<F: Copy> Copy for SurfaceConfiguration<F> {

}

impl<F: Copy> Clone for Command<F> {
    fn clone(&self) -> (copy: Self)
        ensures
            copy == *self,
    {
        *self
    }
}

impl<F: Copy> Copy for Command<F> {

}

/// The surface as render target of the given size, presented in mailbox
/// mode.
pub open spec fn surface_configuration<F>(format: F, size: PhysicalSize) -> SurfaceConfiguration<F> {
    SurfaceConfiguration {
        usage: TextureUsages {
            copy_src: false,
            copy_dst: false,
            texture_binding: false,
            storage_binding: false,
            render_attachment: true,
        },
        format,
        width: size.width,
        height: size.height,
        present_mode: PresentMode::Mailbox,
    }
}

/// The record for a viewport of the given size.
pub open spec fn uniforms_for(size: PhysicalSize) -> Uniforms {
    Uniforms { dimensions: size, field_of_view: FIELD_OF_VIEW }
}

/// The pass of every frame: clear to opaque black, bind the dither texture
/// at set 0 and the uniform buffer at set 1, draw five vertices once.
pub open spec fn frame_pass() -> RenderPass {
    RenderPass {
        clear: Color { r: 0, g: 0, b: 0, a: 255 },
        store: true,
        dither_group: 0,
        uniform_group: 1,
        vertices: 5,
        instances: 1,
    }
}

} // verus!
