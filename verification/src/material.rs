//! The PBR material assembler.
//!
//! Assembly ties the five standard texture maps and the three baked
//! lighting resources to a shader: it resolves every uniform location
//! the draw path needs once, at load time, switches the per-map
//! sampling branches on, and writes the scalar and color defaults.
//! After it returns, the material is drawable; only the per-frame
//! refresh remains.

use vstd::prelude::*;

use crate::baker::EnvironmentBundle;
use crate::scalar::UnitScalar;
use crate::texture::{TextureFilter, TextureHandle};
use crate::uniforms::{loc_resolves, Rgba, ShaderProgram, UniformName, UniformValue};

verus! {

/// The number of map slots a material holds: one per kind.
pub const MAP_COUNT: usize = 10;

/// The kinds of maps a material holds, in slot order.
#[derive(Clone, Copy, Debug, PartialEq, Eq, Structural)]
pub enum MapKind {
    /// Base color.
    Albedo,
    /// Tangent-space normals.
    Normal,
    /// Metallic response.
    Metalness,
    /// Microfacet roughness.
    Roughness,
    /// Ambient occlusion.
    Occlusion,
    /// Emissive intensity; a scalar placeholder by default.
    Emission,
    /// Parallax height; a scalar placeholder by default.
    Height,
    /// Baked diffuse irradiance.
    Irradiance,
    /// Baked prefiltered specular reflection.
    Prefilter,
    /// Baked split-sum lookup table.
    Brdf,
}

/// The kind stored in map slot `i`.
pub open spec fn spec_kind_of_index(i: int) -> MapKind {
    if i == 0 {
        MapKind::Albedo
    } else if i == 1 {
        MapKind::Normal
    } else if i == 2 {
        MapKind::Metalness
    } else if i == 3 {
        MapKind::Roughness
    } else if i == 4 {
        MapKind::Occlusion
    } else if i == 5 {
        MapKind::Emission
    } else if i == 6 {
        MapKind::Height
    } else if i == 7 {
        MapKind::Irradiance
    } else if i == 8 {
        MapKind::Prefilter
    } else {
        MapKind::Brdf
    }
}

/// The map slot that holds maps of kind `kind`.
pub open spec fn spec_kind_index(kind: MapKind) -> int {
    match kind {
        MapKind::Albedo => 0,
        MapKind::Normal => 1,
        MapKind::Metalness => 2,
        MapKind::Roughness => 3,
        MapKind::Occlusion => 4,
        MapKind::Emission => 5,
        MapKind::Height => 6,
        MapKind::Irradiance => 7,
        MapKind::Prefilter => 8,
        MapKind::Brdf => 9,
    }
}

/// The map slot that holds maps of kind `kind`.
pub fn kind_index(kind: MapKind) -> (i: usize)
    ensures
        i == spec_kind_index(kind),
        i < MAP_COUNT,
        spec_kind_of_index(i as int) == kind,
{
    match kind {
        MapKind::Albedo => 0,
        MapKind::Normal => 1,
        MapKind::Metalness => 2,
        MapKind::Roughness => 3,
        MapKind::Occlusion => 4,
        MapKind::Emission => 5,
        MapKind::Height => 6,
        MapKind::Irradiance => 7,
        MapKind::Prefilter => 8,
        MapKind::Brdf => 9,
    }
}

/// One map of a material: an optional texture — shared with whichever
/// component loaded or baked it, not copied — plus a scalar and a color
/// for the untextured paths.
#[derive(Clone, Copy, Debug, PartialEq, Eq, Structural)]
pub struct MaterialMap {
    /// Which map this is.
    pub kind: MapKind,
    /// The bound texture, if the map has one.
    pub texture: Option<TextureHandle>,
    /// The scalar the shader falls back to.
    pub value: UnitScalar,
    /// The color the shader falls back to.
    pub color: Rgba,
}

/// Every uniform location the draw path needs, resolved once at
/// assembly. An unresolved entry makes the matching writes no-ops,
/// which tolerates shader variants that omit optional maps.
#[derive(Clone, Copy, Debug, PartialEq, Eq, Structural)]
pub struct MaterialLocations {
    /// Location of `albedo.sampler`.
    pub albedo_sampler: Option<usize>,
    /// Location of `normals.sampler`.
    pub normals_sampler: Option<usize>,
    /// Location of `metalness.sampler`.
    pub metalness_sampler: Option<usize>,
    /// Location of `roughness.sampler`.
    pub roughness_sampler: Option<usize>,
    /// Location of `occlusion.sampler`.
    pub occlusion_sampler: Option<usize>,
    /// Location of `irradianceMap`.
    pub irradiance_map: Option<usize>,
    /// Location of `prefilterMap`.
    pub prefilter_map: Option<usize>,
    /// Location of `brdfLUT`.
    pub brdf_lut: Option<usize>,
    /// Location of `matModel`.
    pub mat_model: Option<usize>,
    /// Location of `viewPos`.
    pub view_pos: Option<usize>,
}

/// True when every cached location resolves against `shader`. Uniform
/// writes keep names in place, so this survives every later write.
pub open spec fn material_locs_resolve(shader: ShaderProgram, locs: MaterialLocations) -> bool {
    &&& loc_resolves(shader.slots@, UniformName::AlbedoSampler, locs.albedo_sampler)
    &&& loc_resolves(shader.slots@, UniformName::NormalsSampler, locs.normals_sampler)
    &&& loc_resolves(shader.slots@, UniformName::MetalnessSampler, locs.metalness_sampler)
    &&& loc_resolves(shader.slots@, UniformName::RoughnessSampler, locs.roughness_sampler)
    &&& loc_resolves(shader.slots@, UniformName::OcclusionSampler, locs.occlusion_sampler)
    &&& loc_resolves(shader.slots@, UniformName::IrradianceMap, locs.irradiance_map)
    &&& loc_resolves(shader.slots@, UniformName::PrefilterMap, locs.prefilter_map)
    &&& loc_resolves(shader.slots@, UniformName::BrdfLut, locs.brdf_lut)
    &&& loc_resolves(shader.slots@, UniformName::MatModel, locs.mat_model)
    &&& loc_resolves(shader.slots@, UniformName::ViewPos, locs.view_pos)
}

/// An assembled material: the cached locations and the ten map slots.
/// The shader itself is shared process-wide state and stays outside.
#[derive(Debug)]
pub struct Material {
    /// The locations resolved at assembly.
    pub locations: MaterialLocations,
    /// The ten maps, one per kind, in slot order.
    pub maps: Vec<MaterialMap>,
}

impl Material {
    /// One map per kind, each in its slot.
    pub open spec fn wf(self) -> bool {
        &&& self.maps@.len() == MAP_COUNT
        &&& forall|i: int|
            0 <= i < self.maps@.len() ==> (#[trigger] self.maps@[i]).kind == spec_kind_of_index(i)
    }

    /// The map of kind `kind`.
    pub fn map_of(&self, kind: MapKind) -> (m: MaterialMap)
        requires
            self.wf(),
        ensures
            m == self.maps@[spec_kind_index(kind)],
            m.kind == kind,
    {
        let i = kind_index(kind);
        self.maps[i]
    }
}

/// The five standard maps an external asset loader supplies.
#[derive(Clone, Copy, Debug, PartialEq, Eq, Structural)]
pub struct StandardTextures {
    /// Base color map.
    pub albedo: TextureHandle,
    /// Tangent-space normal map.
    pub normals: TextureHandle,
    /// Metallic map.
    pub metalness: TextureHandle,
    /// Roughness map.
    pub roughness: TextureHandle,
    /// Ambient occlusion map.
    pub occlusion: TextureHandle,
}

impl StandardTextures {
    /// The loader hands over flat, nonempty textures.
    pub open spec fn wf(self) -> bool {
        &&& self.albedo.wf() && !self.albedo.is_cubemap
        &&& self.normals.wf() && !self.normals.is_cubemap
        &&& self.metalness.wf() && !self.metalness.is_cubemap
        &&& self.roughness.wf() && !self.roughness.is_cubemap
        &&& self.occlusion.wf() && !self.occlusion.is_cubemap
    }
}

/// The same texture, read with bilinear filtering.
pub open spec fn spec_bilinear(t: TextureHandle) -> TextureHandle {
    TextureHandle { filter: TextureFilter::Bilinear, ..t }
}

/// The value assembly writes under `name`, if it writes the name at
/// all: the five standard sampling branches switched on, and the
/// render-mode selector at its full-shading default.
pub open spec fn assemble_uniform_value(name: UniformName) -> Option<UniformValue> {
    match name {
        UniformName::AlbedoUseSampler => Some(UniformValue::Int(1)),
        UniformName::NormalsUseSampler => Some(UniformValue::Int(1)),
        UniformName::MetalnessUseSampler => Some(UniformValue::Int(1)),
        UniformName::RoughnessUseSampler => Some(UniformValue::Int(1)),
        UniformName::OcclusionUseSampler => Some(UniformValue::Int(1)),
        UniformName::RenderMode => Some(UniformValue::Int(0)),
        _ => None,
    }
}

/// The ten maps of a material assembled from these inputs: the five
/// standard maps bound bilinear, the three baked resources bound as
/// they came, the caller's albedo color and scalars, the flat-normal
/// color, full occlusion, and the emission and height placeholders.
pub open spec fn spec_assembled_map(
    i: int,
    albedo_color: Rgba,
    metalness: UnitScalar,
    roughness: UnitScalar,
    textures: StandardTextures,
    env: EnvironmentBundle,
) -> MaterialMap {
    let white = Rgba { r: 255, g: 255, b: 255, a: 255 };
    if i == 0 {
        MaterialMap {
            kind: MapKind::Albedo,
            texture: Some(spec_bilinear(textures.albedo)),
            value: UnitScalar { raw: 0 },
            color: albedo_color,
        }
    } else if i == 1 {
        MaterialMap {
            kind: MapKind::Normal,
            texture: Some(spec_bilinear(textures.normals)),
            value: UnitScalar { raw: 0 },
            color: Rgba { r: 128, g: 128, b: 255, a: 255 },
        }
    } else if i == 2 {
        MaterialMap {
            kind: MapKind::Metalness,
            texture: Some(spec_bilinear(textures.metalness)),
            value: metalness,
            color: white,
        }
    } else if i == 3 {
        MaterialMap {
            kind: MapKind::Roughness,
            texture: Some(spec_bilinear(textures.roughness)),
            value: roughness,
            color: white,
        }
    } else if i == 4 {
        MaterialMap {
            kind: MapKind::Occlusion,
            texture: Some(spec_bilinear(textures.occlusion)),
            value: UnitScalar { raw: 1000 },
            color: white,
        }
    } else if i == 5 {
        MaterialMap {
            kind: MapKind::Emission,
            texture: None,
            value: UnitScalar { raw: 500 },
            color: white,
        }
    } else if i == 6 {
        MaterialMap {
            kind: MapKind::Height,
            texture: None,
            value: UnitScalar { raw: 500 },
            color: white,
        }
    } else if i == 7 {
        MaterialMap {
            kind: MapKind::Irradiance,
            texture: Some(env.irradiance),
            value: UnitScalar { raw: 0 },
            color: white,
        }
    } else if i == 8 {
        MaterialMap {
            kind: MapKind::Prefilter,
            texture: Some(env.prefiltered),
            value: UnitScalar { raw: 0 },
            color: white,
        }
    } else {
        MaterialMap {
            kind: MapKind::Brdf,
            texture: Some(env.brdf),
            value: UnitScalar { raw: 0 },
            color: white,
        }
    }
}

/// Assembles a drawable material against `shader`.
///
/// Resolves every location the draw path needs once, binds the five
/// standard maps with bilinear filtering and the three baked resources
/// as they came, switches each bound standard map's sampling branch on,
/// writes the scalar defaults, and selects full shading. Writes to
/// names the shader variant omits are no-ops; every uniform assembly
/// does not name keeps its value.
pub fn assemble(
    shader: &mut ShaderProgram,
    albedo_color: Rgba,
    metalness: UnitScalar,
    roughness: UnitScalar,
    textures: &StandardTextures,
    env: &EnvironmentBundle,
) -> (m: Material)
    requires
        old(shader).wf(),
        metalness.wf(),
        roughness.wf(),
        textures.wf(),
        env.wf(),
    ensures
        final(shader).wf(),
        final(shader).slots@.len() == old(shader).slots@.len(),
        forall|j: int|
            0 <= j < old(shader).slots@.len() ==> final(shader).slots@[j].name == old(
                shader,
            ).slots@[j].name,
        forall|j: int|
            0 <= j < old(shader).slots@.len() ==> final(shader).slots@[j].value == (match
                assemble_uniform_value(old(shader).slots@[j].name) {
                Some(v) => v,
                None => old(shader).slots@[j].value,
            }),
        m.wf(),
        material_locs_resolve(*final(shader), m.locations),
        forall|i: int|
            0 <= i < MAP_COUNT ==> #[trigger] m.maps@[i] == spec_assembled_map(
                i,
                albedo_color,
                metalness,
                roughness,
                *textures,
                *env,
            ),
{
    let locations = MaterialLocations {
        albedo_sampler: shader.get_location(UniformName::AlbedoSampler),
        normals_sampler: shader.get_location(UniformName::NormalsSampler),
        metalness_sampler: shader.get_location(UniformName::MetalnessSampler),
        roughness_sampler: shader.get_location(UniformName::RoughnessSampler),
        occlusion_sampler: shader.get_location(UniformName::OcclusionSampler),
        irradiance_map: shader.get_location(UniformName::IrradianceMap),
        prefilter_map: shader.get_location(UniformName::PrefilterMap),
        brdf_lut: shader.get_location(UniformName::BrdfLut),
        mat_model: shader.get_location(UniformName::MatModel),
        view_pos: shader.get_location(UniformName::ViewPos),
    };
    shader.set_by_name(UniformName::AlbedoUseSampler, UniformValue::Int(1));
    shader.set_by_name(UniformName::NormalsUseSampler, UniformValue::Int(1));
    shader.set_by_name(UniformName::MetalnessUseSampler, UniformValue::Int(1));
    shader.set_by_name(UniformName::RoughnessUseSampler, UniformValue::Int(1));
    shader.set_by_name(UniformName::OcclusionUseSampler, UniformValue::Int(1));
    shader.set_by_name(UniformName::RenderMode, UniformValue::Int(0));

    let white = Rgba { r: 255, g: 255, b: 255, a: 255 };
    let zero = UnitScalar { raw: 0 };
    let mut maps: Vec<MaterialMap> = Vec::new();
    maps.push(
        MaterialMap {
            kind: MapKind::Albedo,
            texture: Some(bilinear(&textures.albedo)),
            value: zero,
            color: albedo_color,
        },
    );
    maps.push(
        MaterialMap {
            kind: MapKind::Normal,
            texture: Some(bilinear(&textures.normals)),
            value: zero,
            color: Rgba { r: 128, g: 128, b: 255, a: 255 },
        },
    );
    maps.push(
        MaterialMap {
            kind: MapKind::Metalness,
            texture: Some(bilinear(&textures.metalness)),
            value: metalness,
            color: white,
        },
    );
    maps.push(
        MaterialMap {
            kind: MapKind::Roughness,
            texture: Some(bilinear(&textures.roughness)),
            value: roughness,
            color: white,
        },
    );
    maps.push(
        MaterialMap {
            kind: MapKind::Occlusion,
            texture: Some(bilinear(&textures.occlusion)),
            value: UnitScalar { raw: 1000 },
            color: white,
        },
    );
    maps.push(
        MaterialMap {
            kind: MapKind::Emission,
            texture: None,
            value: UnitScalar { raw: 500 },
            color: white,
        },
    );
    maps.push(
        MaterialMap {
            kind: MapKind::Height,
            texture: None,
            value: UnitScalar { raw: 500 },
            color: white,
        },
    );
    maps.push(
        MaterialMap { kind: MapKind::Irradiance, texture: Some(env.irradiance), value: zero, color: white },
    );
    maps.push(
        MaterialMap { kind: MapKind::Prefilter, texture: Some(env.prefiltered), value: zero, color: white },
    );
    maps.push(
        MaterialMap { kind: MapKind::Brdf, texture: Some(env.brdf), value: zero, color: white },
    );
    Material { locations, maps }
}

/// The same texture, read with bilinear filtering, as the runtime's
/// per-texture filter setting leaves it.
pub fn bilinear(t: &TextureHandle) -> (r: TextureHandle)
    ensures
        r == spec_bilinear(*t),
        t.wf() ==> r.wf(),
{
    TextureHandle { filter: TextureFilter::Bilinear, ..*t }
}

} // verus!
