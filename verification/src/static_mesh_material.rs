use vstd::prelude::*;

verus! {

/// Flag bit of the static mesh shader: the material is opaque.
pub const ALPHA_MODE_OPAQUE: u32 = 1;
/// Flag bit of the static mesh shader: alpha is a mask against a cutoff.
pub const ALPHA_MODE_MASK: u32 = 2;
/// Flag bit of the static mesh shader: alpha blends.
pub const ALPHA_MODE_BLEND: u32 = 4;
/// Flag bit of the static mesh shader: the material has an alpha value.
pub const HAS_ALPHA_VALUE: u32 = 8;

/// How a material's alpha is used: not at all, as a mask against a cutoff, or for
/// blending.
#[derive(Copy, Clone, Debug, PartialEq, Eq, Structural)]
pub enum MaterialAlphaMode {
    Opaque,
    Mask,
    Blend,
}

/// The flags of a material for the shader: its alpha mode, and whether it has an alpha
/// value of its own.
pub fn material_flags(alpha_mode: MaterialAlphaMode, has_alpha_value: bool) -> (flags: u32)
    ensures
        flags == (match alpha_mode {
            MaterialAlphaMode::Opaque => ALPHA_MODE_OPAQUE,
            MaterialAlphaMode::Mask => ALPHA_MODE_MASK,
            MaterialAlphaMode::Blend => ALPHA_MODE_BLEND,
        }) + if has_alpha_value {
            HAS_ALPHA_VALUE
        } else {
            0
        },
{
    let mode = match alpha_mode {
        MaterialAlphaMode::Opaque => ALPHA_MODE_OPAQUE,
        MaterialAlphaMode::Mask => ALPHA_MODE_MASK,
        MaterialAlphaMode::Blend => ALPHA_MODE_BLEND,
    };
    if has_alpha_value {
        mode + HAS_ALPHA_VALUE
    } else {
        mode
    }
}

/// What of a prepared material decides its render pipeline.
#[derive(Copy, Clone, Debug, PartialEq, Eq, Hash, Structural)]
pub struct StaticMeshMaterialKey {
    pub has_lightmap: bool,
    pub is_alpha_mask: bool,
    pub two_sided: bool,
    pub z_test_enabled: bool,
    pub z_write_enabled: bool,
}

/// The pipeline key of a prepared material.
pub fn key(
    has_lightmap: bool,
    alpha_mode: MaterialAlphaMode,
    two_sided: bool,
    z_test_enabled: bool,
    z_write_enabled: bool,
) -> (r: StaticMeshMaterialKey)
    ensures
        r == (StaticMeshMaterialKey {
            has_lightmap,
            is_alpha_mask: alpha_mode == MaterialAlphaMode::Mask,
            two_sided,
            z_test_enabled,
            z_write_enabled,
        }),
{
    StaticMeshMaterialKey {
        has_lightmap,
        is_alpha_mask: alpha_mode == MaterialAlphaMode::Mask,
        two_sided,
        z_test_enabled,
        z_write_enabled,
    }
}

/// The render pass a material goes to: one that is not written to the depth buffer must
/// be drawn back to front, which only the blending pass does.
pub fn alpha_mode(material_alpha_mode: MaterialAlphaMode, z_write_enabled: bool) -> (r: MaterialAlphaMode)
    ensures
        r == if !z_write_enabled {
            MaterialAlphaMode::Blend
        } else {
            material_alpha_mode
        },
{
    if !z_write_enabled {
        MaterialAlphaMode::Blend
    } else {
        material_alpha_mode
    }
}

/// Where the static mesh shader reads the vertex position.
pub const SHADER_LOCATION_POSITION: u32 = 0;
/// Where the static mesh shader reads the first texture coordinates.
pub const SHADER_LOCATION_UV1: u32 = 1;
/// Where the static mesh shader reads the second (lightmap) texture coordinates.
pub const SHADER_LOCATION_UV2: u32 = 2;

/// How a pipeline key changes the render pipeline: whether the shaders get the lightmap
/// definition, the shader locations of the vertex attributes, whether back faces are
/// drawn too, whether depth is written, and whether every depth passes the test.
#[derive(Debug)]
pub struct PipelineSpecialization {
    pub lightmap_shader_def: bool,
    pub vertex_attribute_locations: Vec<u32>,
    pub disable_culling: bool,
    pub depth_write_enabled: bool,
    pub depth_compare_always: bool,
}

/// How a pipeline key changes the render pipeline.
pub fn specialize(key: StaticMeshMaterialKey) -> (r: PipelineSpecialization)
    ensures
        r.lightmap_shader_def == key.has_lightmap,
        r.vertex_attribute_locations@ == if key.has_lightmap {
            seq![SHADER_LOCATION_POSITION, SHADER_LOCATION_UV1, SHADER_LOCATION_UV2]
        } else {
            seq![SHADER_LOCATION_POSITION, SHADER_LOCATION_UV1]
        },
        r.disable_culling == key.two_sided,
        r.depth_write_enabled == key.z_write_enabled,
        r.depth_compare_always == !key.z_test_enabled,
{
    let mut locations = vec![SHADER_LOCATION_POSITION, SHADER_LOCATION_UV1];
    if key.has_lightmap {
        locations.push(SHADER_LOCATION_UV2);
    }
    PipelineSpecialization {
        lightmap_shader_def: key.has_lightmap,
        vertex_attribute_locations: locations,
        disable_culling: key.two_sided,
        depth_write_enabled: key.z_write_enabled,
        depth_compare_always: !key.z_test_enabled,
    }
}

} // verus!
