//! The GPU resources behind the renderer, as plain descriptions: the dither
//! texture, the uniform buffer, the staging buffer, and the layouts of the
//! two binding groups.

use vstd::prelude::*;
use vstd::arithmetic::power2::is_pow2;
use crate::command::TextureUsages;
use crate::command::UNIFORMS_SIZE;
use crate::texture::dither_samples;
use crate::texture::TEXTURE_SIZE;

verus! {

/// The number of dimensions of a texture.
#[derive(Clone, Copy, Debug, PartialEq, Eq, Structural)]
pub enum TextureDimension {
    D1,
    D2,
    D3,
}

/// The shape in which a shader sees a texture.
#[derive(Clone, Copy, Debug, PartialEq, Eq, Structural)]
pub enum TextureViewDimension {
    D1,
    D2,
    D2Array,
    Cube,
    CubeArray,
    D3,
}

/// What a texel holds.
#[derive(Clone, Copy, Debug, PartialEq, Eq, Structural)]
pub enum TexelFormat {
    /// Four channels of one single-precision float each.
    Rgba32Float,
}

impl TexelFormat {
    /// Samples in a texel.
    pub open spec fn channels(self) -> nat {
        4
    }

    /// Bytes in a texel.
    pub open spec fn bytes_per_texel(self) -> nat {
        16
    }
}

/// How a shader reads the samples of a texture.
#[derive(Clone, Copy, Debug, PartialEq, Eq, Structural)]
pub enum TextureSampleType {
    Float { filterable: bool },
    Depth,
    Sint,
    Uint,
}

/// How a shader sees a buffer.
#[derive(Clone, Copy, Debug, PartialEq, Eq, Structural)]
pub enum BufferBindingType {
    Uniform,
    Storage { read_only: bool },
}

/// The stages that see a binding.
#[derive(Clone, Copy, Debug, PartialEq, Eq, Structural)]
pub struct ShaderStages {
    pub vertex: bool,
    pub fragment: bool,
    pub compute: bool,
}

/// What a buffer may be used for.
#[derive(Clone, Copy, Debug, PartialEq, Eq, Structural)]
pub struct BufferUsages {
    pub map_read: bool,
    pub map_write: bool,
    pub copy_src: bool,
    pub copy_dst: bool,
    pub index: bool,
    pub vertex: bool,
    pub uniform: bool,
    pub storage: bool,
    pub indirect: bool,
}

/// A texture to create.
#[derive(Clone, Copy, Debug, PartialEq, Eq, Structural)]
pub struct TextureDescriptor {
    pub width: u32,
    pub height: u32,
    pub depth_or_array_layers: u32,
    pub mip_level_count: u32,
    pub sample_count: u32,
    pub dimension: TextureDimension,
    pub format: TexelFormat,
    pub usage: TextureUsages,
}

impl TextureDescriptor {
    /// Bytes that fill the texture.
    pub open spec fn byte_len(self) -> nat {
        self.width as nat * self.height as nat * self.depth_or_array_layers as nat
            * self.format.bytes_per_texel()
    }
}

/// A buffer to create.
#[derive(Clone, Copy, Debug, PartialEq, Eq, Structural)]
pub struct BufferDescriptor {
    pub size: u64,
    pub usage: BufferUsages,
    pub mapped_at_creation: bool,
}

/// What is bound at a binding.
#[derive(Clone, Copy, Debug, PartialEq, Eq, Structural)]
pub enum BindingType {
    Buffer { ty: BufferBindingType, has_dynamic_offset: bool, min_binding_size: Option<u64> },
    Texture {
        sample_type: TextureSampleType,
        view_dimension: TextureViewDimension,
        multisampled: bool,
    },
}

/// One binding of the layout of a binding group.
#[derive(Clone, Copy, Debug, PartialEq, Eq, Structural)]
pub struct BindGroupLayoutEntry {
    pub binding: u32,
    pub visibility: ShaderStages,
    pub ty: BindingType,
    pub count: Option<u32>,
}

/// A resource of the renderer that can be bound.
#[derive(Clone, Copy, Debug, PartialEq, Eq, Structural)]
pub enum BindingResource {
    /// The default view of the whole dither texture.
    DitherTextureView,
    /// The uniform buffer from `offset` on: `size` bytes, or all that
    /// follow.
    UniformBuffer { offset: u64, size: Option<u64> },
}

/// What a binding group binds at one of its bindings.
#[derive(Clone, Copy, Debug, PartialEq, Eq, Structural)]
pub struct BindGroupEntry {
    pub binding: u32,
    pub resource: BindingResource,
}

/// The resources of the renderer. Each binding group has one binding.
#[derive(Clone, Copy, Debug, PartialEq, Eq, Structural)]
pub struct ResourceSet {
    /// The texture that takes the dither image.
    pub dither_texture: TextureDescriptor,
    /// The layout of the one binding of the dither group.
    pub dither_binding: BindGroupLayoutEntry,
    /// What the dither group binds there.
    pub dither_entry: BindGroupEntry,
    /// The buffer that the fragment stage reads the uniforms from.
    pub uniform_buffer: BufferDescriptor,
    /// The layout of the one binding of the uniform group.
    pub uniform_binding: BindGroupLayoutEntry,
    /// What the uniform group binds there.
    pub uniform_entry: BindGroupEntry,
    /// The buffer through which the uniforms are written.
    pub staging_buffer: BufferDescriptor,
}

/// No usage of a buffer.
pub open spec fn no_buffer_usage() -> BufferUsages {
    BufferUsages {
        map_read: false,
        map_write: false,
        copy_src: false,
        copy_dst: false,
        index: false,
        vertex: false,
        uniform: false,
        storage: false,
        indirect: false,
    }
}

/// The fragment stage alone.
pub open spec fn fragment_only() -> ShaderStages {
    ShaderStages { vertex: false, fragment: true, compute: false }
}

/// The dither texture: 255 by 255 texels of four floats, one layer, one mip
/// level, one sample; a copy target that shaders can bind.
pub open spec fn dither_texture() -> TextureDescriptor {
    TextureDescriptor {
        width: TEXTURE_SIZE,
        height: TEXTURE_SIZE,
        depth_or_array_layers: 1,
        mip_level_count: 1,
        sample_count: 1,
        dimension: TextureDimension::D2,
        format: TexelFormat::Rgba32Float,
        usage: TextureUsages {
            copy_src: false,
            copy_dst: true,
            texture_binding: true,
            storage_binding: false,
            render_attachment: false,
        },
    }
}

/// Binding 0 of the dither group: a two-dimensional texture of floats that
/// cannot be filtered, not multisampled, seen by the fragment stage alone.
pub open spec fn dither_binding() -> BindGroupLayoutEntry {
    BindGroupLayoutEntry {
        binding: 0,
        visibility: fragment_only(),
        ty: BindingType::Texture {
            sample_type: TextureSampleType::Float { filterable: false },
            view_dimension: TextureViewDimension::D2,
            multisampled: false,
        },
        count: None,
    }
}

/// Binding 0 of the uniform group: a uniform buffer without dynamic offset,
/// seen by the fragment stage alone.
pub open spec fn uniform_binding() -> BindGroupLayoutEntry {
    BindGroupLayoutEntry {
        binding: 0,
        visibility: fragment_only(),
        ty: BindingType::Buffer {
            ty: BufferBindingType::Uniform,
            has_dynamic_offset: false,
            min_binding_size: None,
        },
        count: None,
    }
}

/// The size of the uniform buffer: the power of two next to the size of the
/// uniform record.
pub open spec fn uniform_buffer_size() -> u64 {
    16
}

/// The uniform buffer: a copy target that is bound as uniform.
pub open spec fn uniform_buffer() -> BufferDescriptor {
    BufferDescriptor {
        size: uniform_buffer_size(),
        usage: BufferUsages { uniform: true, copy_dst: true, ..no_buffer_usage() },
        mapped_at_creation: false,
    }
}

/// The staging buffer: as large as the uniform record, written by the host
/// and the source of copies, mapped from the start.
pub open spec fn staging_buffer() -> BufferDescriptor {
    BufferDescriptor {
        size: UNIFORMS_SIZE,
        usage: BufferUsages { map_write: true, copy_src: true, ..no_buffer_usage() },
        mapped_at_creation: true,
    }
}

/// The resources of the renderer: the dither group binds the view of the
/// dither texture, the uniform group the whole uniform buffer.
pub open spec fn resource_set() -> ResourceSet {
    ResourceSet {
        dither_texture: dither_texture(),
        dither_binding: dither_binding(),
        dither_entry: BindGroupEntry { binding: 0, resource: BindingResource::DitherTextureView },
        uniform_buffer: uniform_buffer(),
        uniform_binding: uniform_binding(),
        uniform_entry: BindGroupEntry {
            binding: 0,
            resource: BindingResource::UniformBuffer { offset: 0, size: None },
        },
        staging_buffer: staging_buffer(),
    }
}

/// `usize::next_power_of_two`: the smallest power of two that is not below
/// `n`. Where that power does not fit in `usize` the call panics in a debug
/// build, so such `n` are left out.
#[verifier::external_body]
fn next_power_of_two(n: usize) -> (p: usize)
    requires
        n <= usize::MAX / 2 + 1,
    ensures
        is_pow2(p as int),
        n <= p,
        p == 1 || p / 2 < n,
{
    n.next_power_of_two()
}

impl ResourceSet {
    /// Describes the resources of the renderer.
    pub fn build() -> (resources: ResourceSet)
        ensures
            resources == resource_set(),
    {
        let none = BufferUsages {
            map_read: false,
            map_write: false,
            copy_src: false,
            copy_dst: false,
            index: false,
            vertex: false,
            uniform: false,
            storage: false,
            indirect: false,
        };
        let fragment = ShaderStages { vertex: false, fragment: true, compute: false };
        let uniform_size = next_power_of_two(UNIFORMS_SIZE as usize);
        proof {
            lemma_power_of_two_next_to_uniforms(uniform_size as int);
        }
        ResourceSet {
            dither_texture: TextureDescriptor {
                width: TEXTURE_SIZE,
                height: TEXTURE_SIZE,
                depth_or_array_layers: 1,
                mip_level_count: 1,
                sample_count: 1,
                dimension: TextureDimension::D2,
                format: TexelFormat::Rgba32Float,
                usage: TextureUsages {
                    copy_src: false,
                    copy_dst: true,
                    texture_binding: true,
                    storage_binding: false,
                    render_attachment: false,
                },
            },
            dither_binding: BindGroupLayoutEntry {
                binding: 0,
                visibility: fragment,
                ty: BindingType::Texture {
                    sample_type: TextureSampleType::Float { filterable: false },
                    view_dimension: TextureViewDimension::D2,
                    multisampled: false,
                },
                count: None,
            },
            dither_entry: BindGroupEntry {
                binding: 0,
                resource: BindingResource::DitherTextureView,
            },
            uniform_buffer: BufferDescriptor {
                size: uniform_size as u64,
                usage: BufferUsages { uniform: true, copy_dst: true, ..none },
                mapped_at_creation: false,
            },
            uniform_binding: BindGroupLayoutEntry {
                binding: 0,
                visibility: fragment,
                ty: BindingType::Buffer {
                    ty: BufferBindingType::Uniform,
                    has_dynamic_offset: false,
                    min_binding_size: None,
                },
                count: None,
            },
            uniform_entry: BindGroupEntry {
                binding: 0,
                resource: BindingResource::UniformBuffer { offset: 0, size: None },
            },
            staging_buffer: BufferDescriptor {
                size: UNIFORMS_SIZE,
                usage: BufferUsages { map_write: true, copy_src: true, ..none },
                mapped_at_creation: true,
            },
        }
    }
}

/// Sixteen is the one power of two that is not below the size of the uniform
/// record while its half is.
proof fn lemma_power_of_two_next_to_uniforms(p: int)
    requires
        is_pow2(p),
        UNIFORMS_SIZE <= p,
        p / 2 < UNIFORMS_SIZE,
    ensures
        p == uniform_buffer_size(),
{
    reveal_with_fuel(is_pow2, 6);
}

/// The descriptions fit each other and the data that fills them: the dither
/// image fills the texture exactly, the texture is bound as what it is, and
/// a copy of one uniform record is in range and allowed on both buffers.
pub proof fn lemma_resources_fit()
    ensures
        dither_samples().len() == resource_set().dither_texture.width
            * resource_set().dither_texture.height * resource_set().dither_texture.format.channels(),
        resource_set().dither_texture.byte_len() == 4 * dither_samples().len(),
        resource_set().dither_texture.usage.copy_dst,
        resource_set().dither_texture.usage.texture_binding,
        resource_set().dither_binding.ty == (BindingType::Texture {
            sample_type: TextureSampleType::Float { filterable: false },
            view_dimension: TextureViewDimension::D2,
            multisampled: resource_set().dither_texture.sample_count > 1,
        }),
        resource_set().dither_entry.binding == resource_set().dither_binding.binding,
        resource_set().dither_entry.resource is DitherTextureView,
        resource_set().uniform_entry.binding == resource_set().uniform_binding.binding,
        resource_set().uniform_entry.resource is UniformBuffer,
        resource_set().uniform_binding.ty is Buffer,
        resource_set().staging_buffer.size == UNIFORMS_SIZE,
        resource_set().staging_buffer.usage.map_write,
        resource_set().staging_buffer.usage.copy_src,
        resource_set().staging_buffer.mapped_at_creation,
        is_pow2(resource_set().uniform_buffer.size as int),
        UNIFORMS_SIZE <= resource_set().uniform_buffer.size < 2 * UNIFORMS_SIZE,
        resource_set().uniform_buffer.usage.uniform,
        resource_set().uniform_buffer.usage.copy_dst,
        !resource_set().uniform_buffer.mapped_at_creation,
        UNIFORMS_SIZE % 4 == 0,
{
    reveal_with_fuel(is_pow2, 6);
    assert(4 * TEXTURE_SIZE * TEXTURE_SIZE == 260100);
    assert(dither_samples().len() == 260100);
    assert(resource_set().dither_texture.byte_len() == 255 * 255 * 1 * 16);
}

} // verus!
