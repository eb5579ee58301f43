use pbr_pipeline::baker::{bake_environment, BRDF_SIZE, CUBEMAP_SIZE, IRRADIANCE_SIZE, PREFILTERED_SIZE};
use pbr_pipeline::material::{assemble, MapKind, StandardTextures};
use pbr_pipeline::scalar::UnitScalar;
use pbr_pipeline::texture::{PixelFormat, TextureFilter, TextureHandle};
use pbr_pipeline::uniforms::{Rgba, ShaderProgram, UniformName, UniformValue};

fn pbr_names() -> Vec<UniformName> {
    vec![
        UniformName::AlbedoSampler,
        UniformName::AlbedoUseSampler,
        UniformName::NormalsSampler,
        UniformName::NormalsUseSampler,
        UniformName::MetalnessSampler,
        UniformName::MetalnessUseSampler,
        UniformName::RoughnessSampler,
        UniformName::RoughnessUseSampler,
        UniformName::OcclusionSampler,
        UniformName::OcclusionUseSampler,
        UniformName::IrradianceMap,
        UniformName::PrefilterMap,
        UniformName::BrdfLut,
        UniformName::MatModel,
        UniformName::ViewPos,
        UniformName::RenderMode,
    ]
}

fn loaded_maps() -> StandardTextures {
    let map = |_| TextureHandle::new_2d(1024, 1024, PixelFormat::Rgba8).unwrap();
    StandardTextures {
        albedo: map(0),
        normals: map(1),
        metalness: map(2),
        roughness: map(3),
        occlusion: map(4),
    }
}

#[test]
fn assembled_material_enables_sampling_and_full_shading() {
    let mut shader = ShaderProgram::compile(&pbr_names()).expect("distinct names compile");
    let panorama = TextureHandle::new_2d(2048, 1024, PixelFormat::HdrColor).unwrap();
    let bake = bake_environment(&panorama, CUBEMAP_SIZE, IRRADIANCE_SIZE, PREFILTERED_SIZE, BRDF_SIZE);
    let material = assemble(
        &mut shader,
        Rgba { r: 255, g: 255, b: 255, a: 255 },
        UnitScalar { raw: 1000 },
        UnitScalar { raw: 1000 },
        &loaded_maps(),
        &bake.bundle,
    );

    // All five standard map sampling branches read back enabled, and
    // the render mode reads back at its full-shading default.
    for name in [
        UniformName::AlbedoUseSampler,
        UniformName::NormalsUseSampler,
        UniformName::MetalnessUseSampler,
        UniformName::RoughnessUseSampler,
        UniformName::OcclusionUseSampler,
    ] {
        assert_eq!(shader.read_by_name(name), Some(UniformValue::Int(1)));
    }
    assert_eq!(shader.read_by_name(UniformName::RenderMode), Some(UniformValue::Int(0)));

    // The caller's inputs land in the map table.
    assert_eq!(
        material.map_of(MapKind::Albedo).color,
        Rgba { r: 255, g: 255, b: 255, a: 255 }
    );
    assert_eq!(material.map_of(MapKind::Metalness).value, UnitScalar { raw: 1000 });
    assert_eq!(material.map_of(MapKind::Roughness).value, UnitScalar { raw: 1000 });
}

#[test]
fn assembly_writes_defaults_and_placeholders() {
    let mut shader = ShaderProgram::compile(&pbr_names()).expect("distinct names compile");
    let panorama = TextureHandle::new_2d(512, 256, PixelFormat::HdrColor).unwrap();
    let bake = bake_environment(&panorama, 64, 16, 32, 64);
    let material = assemble(
        &mut shader,
        Rgba { r: 10, g: 20, b: 30, a: 255 },
        UnitScalar { raw: 250 },
        UnitScalar { raw: 750 },
        &loaded_maps(),
        &bake.bundle,
    );

    // The flat-normal color, full occlusion, and the two placeholders.
    assert_eq!(
        material.map_of(MapKind::Normal).color,
        Rgba { r: 128, g: 128, b: 255, a: 255 }
    );
    assert_eq!(material.map_of(MapKind::Occlusion).value, UnitScalar { raw: 1000 });
    assert_eq!(material.map_of(MapKind::Emission).value, UnitScalar { raw: 500 });
    assert_eq!(material.map_of(MapKind::Emission).texture, None);
    assert_eq!(material.map_of(MapKind::Height).value, UnitScalar { raw: 500 });
    assert_eq!(material.map_of(MapKind::Height).texture, None);

    // The baked resources are bound as they came.
    assert_eq!(material.map_of(MapKind::Irradiance).texture, Some(bake.bundle.irradiance));
    assert_eq!(material.map_of(MapKind::Prefilter).texture, Some(bake.bundle.prefiltered));
    assert_eq!(material.map_of(MapKind::Brdf).texture, Some(bake.bundle.brdf));
}

#[test]
fn assembly_applies_bilinear_filtering_to_standard_maps() {
    let mut shader = ShaderProgram::compile(&pbr_names()).expect("distinct names compile");
    let panorama = TextureHandle::new_2d(512, 256, PixelFormat::HdrColor).unwrap();
    let bake = bake_environment(&panorama, 64, 16, 32, 64);
    let textures = loaded_maps();
    assert_eq!(textures.albedo.filter, TextureFilter::Point);
    let material = assemble(
        &mut shader,
        Rgba { r: 255, g: 255, b: 255, a: 255 },
        UnitScalar { raw: 0 },
        UnitScalar { raw: 0 },
        &textures,
        &bake.bundle,
    );
    for kind in [
        MapKind::Albedo,
        MapKind::Normal,
        MapKind::Metalness,
        MapKind::Roughness,
        MapKind::Occlusion,
    ] {
        let map = material.map_of(kind).texture.expect("standard maps are textured");
        assert_eq!(map.filter, TextureFilter::Bilinear);
        assert_eq!(map.width, 1024);
    }
}

#[test]
fn assembly_tolerates_shader_variants_without_optional_names() {
    // A reduced variant: no occlusion branch, no render-mode selector.
    let names = vec![
        UniformName::AlbedoUseSampler,
        UniformName::NormalsUseSampler,
        UniformName::MetalnessUseSampler,
        UniformName::RoughnessUseSampler,
        UniformName::ViewPos,
    ];
    let mut shader = ShaderProgram::compile(&names).expect("distinct names compile");
    let panorama = TextureHandle::new_2d(512, 256, PixelFormat::HdrColor).unwrap();
    let bake = bake_environment(&panorama, 64, 16, 32, 64);
    let material = assemble(
        &mut shader,
        Rgba { r: 255, g: 255, b: 255, a: 255 },
        UnitScalar { raw: 0 },
        UnitScalar { raw: 0 },
        &loaded_maps(),
        &bake.bundle,
    );
    assert_eq!(shader.read_by_name(UniformName::AlbedoUseSampler), Some(UniformValue::Int(1)));
    assert_eq!(shader.read_by_name(UniformName::OcclusionUseSampler), None);
    assert_eq!(shader.read_by_name(UniformName::ViewPos), Some(UniformValue::Int(0)));
    assert_eq!(material.map_of(MapKind::Albedo).texture.unwrap().width, 1024);
}
