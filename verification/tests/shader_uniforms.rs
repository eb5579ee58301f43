use pbr_pipeline::scalar::UnitScalar;
use pbr_pipeline::uniforms::{Rgba, ShaderProgram, UniformName, UniformValue, VecI3};

fn fog_shader() -> ShaderProgram {
    let names = vec![
        UniformName::MatModel,
        UniformName::ViewPos,
        UniformName::Ambient,
        UniformName::FogDensity,
    ];
    ShaderProgram::compile(&names).expect("distinct names compile")
}

#[test]
fn compile_exposes_each_name_zero_initialized() {
    let p = fog_shader();
    assert_eq!(p.slot_count(), 4);
    for name in [
        UniformName::MatModel,
        UniformName::ViewPos,
        UniformName::Ambient,
        UniformName::FogDensity,
    ] {
        assert_eq!(p.read_by_name(name), Some(UniformValue::Int(0)));
    }
}

#[test]
fn compile_rejects_duplicate_names() {
    let names = vec![UniformName::ViewPos, UniformName::ViewPos];
    assert!(ShaderProgram::compile(&names).is_none());
}

#[test]
fn get_location_resolves_declared_names_only() {
    let p = fog_shader();
    assert_eq!(p.get_location(UniformName::FogDensity), Some(3));
    assert_eq!(p.get_location(UniformName::ViewPos), Some(1));
    assert_eq!(p.get_location(UniformName::RenderMode), None);
}

#[test]
fn set_by_name_updates_exactly_one_slot() {
    let mut p = fog_shader();
    let written = p.set_by_name(
        UniformName::ViewPos,
        UniformValue::Vec3(VecI3 { x: 4000, y: 4000, z: 4000 }),
    );
    assert!(written);
    assert_eq!(
        p.read_by_name(UniformName::ViewPos),
        Some(UniformValue::Vec3(VecI3 { x: 4000, y: 4000, z: 4000 }))
    );
    assert_eq!(p.read_by_name(UniformName::MatModel), Some(UniformValue::Int(0)));
    assert_eq!(p.read_by_name(UniformName::Ambient), Some(UniformValue::Int(0)));
}

#[test]
fn unresolved_location_write_is_a_no_op() {
    let mut p = fog_shader();
    p.set_by_name(UniformName::FogDensity, UniformValue::Scalar(UnitScalar { raw: 150 }));
    let before: Vec<_> = (0..4)
        .map(|i| {
            p.read_by_name(
                [
                    UniformName::MatModel,
                    UniformName::ViewPos,
                    UniformName::Ambient,
                    UniformName::FogDensity,
                ][i],
            )
        })
        .collect();

    // An unresolved lookup yields no location; writing through it must
    // neither crash nor alter any other uniform's value.
    let loc = p.get_location(UniformName::RenderMode);
    assert_eq!(loc, None);
    p.set_uniform(loc, UniformValue::Int(99));

    let after: Vec<_> = (0..4)
        .map(|i| {
            p.read_by_name(
                [
                    UniformName::MatModel,
                    UniformName::ViewPos,
                    UniformName::Ambient,
                    UniformName::FogDensity,
                ][i],
            )
        })
        .collect();
    assert_eq!(before, after);
}

#[test]
fn out_of_range_location_write_is_a_no_op() {
    let mut p = fog_shader();
    p.set_uniform(Some(100), UniformValue::Int(7));
    for name in [
        UniformName::MatModel,
        UniformName::ViewPos,
        UniformName::Ambient,
        UniformName::FogDensity,
    ] {
        assert_eq!(p.read_by_name(name), Some(UniformValue::Int(0)));
    }
}

#[test]
fn write_by_missing_name_reports_and_changes_nothing() {
    let mut p = fog_shader();
    let written = p.set_by_name(
        UniformName::LightColor(0),
        UniformValue::Color(Rgba { r: 1, g: 2, b: 3, a: 4 }),
    );
    assert!(!written);
    assert_eq!(p.read_by_name(UniformName::LightColor(0)), None);
}

#[test]
fn unit_scalar_steps_clamp_at_both_ends() {
    let s = UnitScalar { raw: 998 };
    assert_eq!(s.step_up(1).raw, 999);
    assert_eq!(s.step_up(5).raw, 1000);
    assert_eq!(UnitScalar { raw: 1000 }.step_up(1).raw, 1000);
    assert_eq!(UnitScalar { raw: 2 }.step_down(5).raw, 0);
    assert_eq!(UnitScalar { raw: 0 }.step_down(1).raw, 0);
    assert_eq!(UnitScalar::from_thousandths(1000), Some(UnitScalar { raw: 1000 }));
    assert_eq!(UnitScalar::from_thousandths(1001), None);
}
