use pbr_pipeline::lights::{Light, LightKind, LightRegistry, RegistryError};
use pbr_pipeline::uniforms::{Rgba, ShaderProgram, UniformName, UniformValue, VecI3};

fn lit_shader(light_count: usize) -> ShaderProgram {
    let mut names = vec![UniformName::MatModel, UniformName::ViewPos];
    for i in 0..light_count {
        names.push(UniformName::LightPosition(i));
        names.push(UniformName::LightTarget(i));
        names.push(UniformName::LightColor(i));
        names.push(UniformName::LightEnabled(i));
        names.push(UniformName::LightType(i));
    }
    ShaderProgram::compile(&names).expect("distinct names compile")
}

fn point_light(x: i32, color: Rgba) -> Light {
    Light {
        kind: LightKind::Point,
        position: VecI3 { x, y: 4000, z: 0 },
        target: VecI3 { x: 0, y: 0, z: 0 },
        color,
        enabled: true,
    }
}

const RED: Rgba = Rgba { r: 255, g: 0, b: 0, a: 255 };
const GREEN: Rgba = Rgba { r: 0, g: 255, b: 0, a: 255 };

#[test]
fn registration_assigns_indices_in_order() {
    let shader = lit_shader(4);
    let mut reg = LightRegistry::new(4);
    assert_eq!(reg.register(point_light(1000, RED), &shader), Ok(0));
    assert_eq!(reg.register(point_light(2000, GREEN), &shader), Ok(1));
    assert_eq!(reg.len(), 2);
    assert_eq!(reg.capacity(), 4);
    assert_eq!(reg.light(0).unwrap().position.x, 1000);
    assert_eq!(reg.light(1).unwrap().position.x, 2000);
    assert_eq!(reg.light(2), None);
}

#[test]
fn fifth_light_exceeds_capacity_and_registry_keeps_four() {
    let shader = lit_shader(4);
    let mut reg = LightRegistry::new(4);
    for i in 0..4 {
        assert_eq!(reg.register(point_light(i * 1000, RED), &shader), Ok(i as usize));
    }
    assert_eq!(
        reg.register(point_light(9000, GREEN), &shader),
        Err(RegistryError::CapacityExceeded)
    );
    assert_eq!(reg.len(), 4);
    for i in 0..4usize {
        assert_eq!(reg.light(i).unwrap().position.x, i as i32 * 1000);
    }
}

#[test]
fn push_writes_the_five_uniforms_of_one_light() {
    let mut shader = lit_shader(2);
    let mut reg = LightRegistry::new(2);
    reg.register(point_light(1000, RED), &shader).unwrap();
    let directional = Light {
        kind: LightKind::Directional,
        position: VecI3 { x: 0, y: 8000, z: -4000 },
        target: VecI3 { x: 0, y: 0, z: 0 },
        color: GREEN,
        enabled: false,
    };
    reg.register(directional, &shader).unwrap();

    reg.push_to_shader(1, &mut shader);
    assert_eq!(
        shader.read_by_name(UniformName::LightPosition(1)),
        Some(UniformValue::Vec3(VecI3 { x: 0, y: 8000, z: -4000 }))
    );
    assert_eq!(
        shader.read_by_name(UniformName::LightColor(1)),
        Some(UniformValue::Color(GREEN))
    );
    assert_eq!(shader.read_by_name(UniformName::LightEnabled(1)), Some(UniformValue::Int(0)));
    assert_eq!(shader.read_by_name(UniformName::LightType(1)), Some(UniformValue::Int(0)));
    // The other light's slots are untouched.
    assert_eq!(shader.read_by_name(UniformName::LightPosition(0)), Some(UniformValue::Int(0)));
}

#[test]
fn push_all_writes_every_light_in_registration_order() {
    let mut shader = lit_shader(3);
    let mut reg = LightRegistry::new(3);
    reg.register(point_light(1000, RED), &shader).unwrap();
    reg.register(point_light(2000, GREEN), &shader).unwrap();
    reg.push_all(&mut shader);
    assert_eq!(
        shader.read_by_name(UniformName::LightPosition(0)),
        Some(UniformValue::Vec3(VecI3 { x: 1000, y: 4000, z: 0 }))
    );
    assert_eq!(
        shader.read_by_name(UniformName::LightPosition(1)),
        Some(UniformValue::Vec3(VecI3 { x: 2000, y: 4000, z: 0 }))
    );
    assert_eq!(shader.read_by_name(UniformName::LightEnabled(0)), Some(UniformValue::Int(1)));
    assert_eq!(shader.read_by_name(UniformName::LightType(0)), Some(UniformValue::Int(1)));
    // No third light was registered: its slots keep their values.
    assert_eq!(shader.read_by_name(UniformName::LightPosition(2)), Some(UniformValue::Int(0)));
    // Uniforms outside the light array keep their values too.
    assert_eq!(shader.read_by_name(UniformName::ViewPos), Some(UniformValue::Int(0)));
}

#[test]
fn toggling_enabled_changes_only_that_field() {
    let shader = lit_shader(1);
    let mut reg = LightRegistry::new(1);
    reg.register(point_light(1000, RED), &shader).unwrap();
    assert!(reg.set_enabled(0, false));
    let light = reg.light(0).unwrap();
    assert!(!light.enabled);
    assert_eq!(light.position.x, 1000);
    assert_eq!(light.color, RED);
    assert!(!reg.set_enabled(5, true));
}

#[test]
fn moving_a_light_reaches_the_shader_only_on_push() {
    let mut shader = lit_shader(1);
    let mut reg = LightRegistry::new(1);
    reg.register(point_light(1000, RED), &shader).unwrap();
    reg.push_all(&mut shader);
    assert!(reg.set_position(0, VecI3 { x: 7000, y: 0, z: 0 }));
    // Mutation alone does not touch the GPU side.
    assert_eq!(
        shader.read_by_name(UniformName::LightPosition(0)),
        Some(UniformValue::Vec3(VecI3 { x: 1000, y: 4000, z: 0 }))
    );
    reg.push_to_shader(0, &mut shader);
    assert_eq!(
        shader.read_by_name(UniformName::LightPosition(0)),
        Some(UniformValue::Vec3(VecI3 { x: 7000, y: 0, z: 0 }))
    );
}

#[test]
fn light_fields_the_shader_omits_are_skipped() {
    // A shader variant with no light array at all: registration caches
    // unresolved locations and pushes write nothing.
    let mut shader =
        ShaderProgram::compile(&vec![UniformName::ViewPos]).expect("distinct names compile");
    let mut reg = LightRegistry::new(4);
    assert_eq!(reg.register(point_light(1000, RED), &shader), Ok(0));
    reg.push_all(&mut shader);
    assert_eq!(shader.read_by_name(UniformName::ViewPos), Some(UniformValue::Int(0)));
    assert_eq!(shader.slot_count(), 1);
}

#[test]
fn zero_capacity_registry_rejects_every_light() {
    let shader = lit_shader(0);
    let mut reg = LightRegistry::new(0);
    assert_eq!(
        reg.register(point_light(0, RED), &shader),
        Err(RegistryError::CapacityExceeded)
    );
    assert_eq!(reg.len(), 0);
}
