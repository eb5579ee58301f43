use pbr_pipeline::baker::ProxyGeometry;
use pbr_pipeline::runner::{run_pass, PassAction, RasterState};

#[test]
fn pass_restores_the_state_it_found() {
    let entry = RasterState { bound_target: Some(7), viewport_w: 800, viewport_h: 450 };
    let mut state = entry;
    let trace = run_pass(&mut state, 3, 512, ProxyGeometry::UnitCube);
    assert_eq!(state, entry);
    assert_eq!(
        trace,
        vec![
            PassAction::BindTarget(3),
            PassAction::SetViewport(512, 512),
            PassAction::WriteUniforms,
            PassAction::DrawProxy(ProxyGeometry::UnitCube),
            PassAction::UnbindTarget,
            PassAction::RestoreTarget(Some(7)),
            PassAction::SetViewport(800, 450),
        ]
    );
}

#[test]
fn passes_compose_back_to_back_without_leaking_state() {
    let entry = RasterState { bound_target: None, viewport_w: 800, viewport_h: 450 };
    let mut state = entry;
    for target in 0..6 {
        run_pass(&mut state, target, 32, ProxyGeometry::UnitCube);
        assert_eq!(state, entry);
    }
    run_pass(&mut state, 6, 512, ProxyGeometry::ScreenQuad);
    assert_eq!(state, entry);
}
