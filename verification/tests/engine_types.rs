use render_baby::control::egui_view::EGuiView;
use render_baby::control::general_model::Model;
use render_baby::control::view::{Event, NullListener, ViewListener};
use render_baby::engine_types::{MaterialError, RenderEngine, SphereError, Triangle};

#[test]
fn shader_paths() {
    assert_eq!(RenderEngine::default_engine(), RenderEngine::Raytracer);
    assert_eq!(RenderEngine::Raytracer.default_shader(), "engine-shader/shaders/raytrace-shader.wgsl");
    assert_eq!(RenderEngine::Pathtracer.default_shader(), "engine-shader/shaders/pathtracer-shader.wgsl");
}

#[test]
fn triangle_vertices() {
    let t = Triangle::new(4, 5, 6);
    assert_eq!(t.0, [4, 5, 6, 0]);
    assert_eq!((t.v0(), t.v1(), t.v2()), (4, 5, 6));
}

#[test]
fn error_texts() {
    assert_eq!(MaterialError::ColorOutOfBounds.message(), "Sphere color values must be in [0.0, 1.0]");
    assert_eq!(SphereError::RadiusOutOfBounds.message(), "Sphere radius must be positive");
}

#[test]
fn null_listener_ignores_events() {
    let mut l = NullListener;
    l.handle_event(Event::DoRender);
    l.handle_event(Event::ImportObj);
    assert!(Event::ImportScene != Event::DoRender);
}

#[test]
fn view_listener_slot() {
    let mut v: EGuiView<u8> = EGuiView::new();
    v.set_listener(3);
    let _m = Model::new();
}
