use atelier::content::{finished_description, join_text_nodes, markup_to_string, ContentI18ned, ShaderContent};
use atelier::session::{InitFailure, SessionAction, SessionEvent, SessionPhase};
use atelier::shader_work::{quad_indices, thumbnail_path_for, Slug};
use atelier::surface::{preferred_format_index, surface_format};
use atelier::theme::{layout_for_width, Layout, Theme};
use wgpu::TextureFormat;

#[test]
fn slugs_round_trip_through_text() {
    for slug in Slug::all() {
        assert_eq!(Slug::from_str(slug.as_str()), Some(slug));
        assert_eq!(slug.to_string(), slug.as_str());
    }
    assert_eq!(Slug::from_str("hello-triangle"), Some(Slug::HelloTriangle));
    assert_eq!(Slug::from_str("glslsandbox-example"), Some(Slug::GlslsandboxExample));
    assert_eq!(Slug::from_str("hello-triangle-"), None);
    assert_eq!(Slug::from_str("HelloTriangle"), None);
    assert_eq!(Slug::from_str(""), None);
}

#[test]
fn slug_order_is_declaration_order() {
    assert_eq!(
        Slug::all(),
        vec![Slug::HelloTriangle, Slug::HelloTriangleWithVertexBuffer, Slug::GlslsandboxExample]
    );
}

#[test]
fn slug_titles_and_addresses() {
    assert_eq!(Slug::HelloTriangleWithVertexBuffer.title(), "Hello Triangle With Vertex Buffer");
    assert_eq!(Slug::GlslsandboxExample.title(), "Glslsandbox Example");
    assert_eq!(Slug::HelloTriangle.page_url(), "/shaders/hello-triangle");
    assert_eq!(
        Slug::HelloTriangleWithVertexBuffer.thumbnail_path(),
        "shaders/thumbnail/hello_triangle_with_vertex_buffer.webp"
    );
    assert_eq!(thumbnail_path_for("x"), "shaders/thumbnail/x.webp");
}

#[test]
fn plans_of_each_work() {
    let p = Slug::HelloTriangle.plan();
    assert!(!p.vertex_buffer && !p.uniform && p.draw.count == 3 && !p.draw.indexed);
    let p = Slug::HelloTriangleWithVertexBuffer.plan();
    assert!(p.vertex_buffer && !p.uniform && p.draw.count == 3 && !p.draw.indexed);
    let p = Slug::GlslsandboxExample.plan();
    assert!(p.vertex_buffer && p.uniform && p.draw.count == 6 && p.draw.indexed);
    assert_eq!(quad_indices(), vec![0, 1, 3, 1, 2, 3]);
}

#[test]
fn format_preference() {
    assert_eq!(preferred_format_index(&vec![]), None);
    assert_eq!(preferred_format_index(&vec![false, false]), Some(0));
    assert_eq!(preferred_format_index(&vec![false, true, true]), Some(1));
    assert_eq!(
        surface_format(&vec![TextureFormat::Bgra8Unorm, TextureFormat::Bgra8UnormSrgb]),
        Some(TextureFormat::Bgra8UnormSrgb)
    );
    assert_eq!(surface_format(&vec![TextureFormat::Rgba16Float]), Some(TextureFormat::Rgba16Float));
    assert_eq!(surface_format(&vec![]), None);
}

#[test]
fn session_reaches_ready_after_three_successes() {
    let mut p = SessionPhase::new();
    assert_eq!(p.advance(SessionEvent::AdapterFound(true)), SessionAction::Ignore);
    assert_eq!(p.advance(SessionEvent::SurfaceCreated(true)), SessionAction::RequestAdapter);
    assert_eq!(p.advance(SessionEvent::AdapterFound(true)), SessionAction::RequestDevice);
    assert!(!p.is_ready());
    assert_eq!(p.advance(SessionEvent::DeviceCreated(true)), SessionAction::ConfigureSurface);
    assert!(p.is_ready());
    assert_eq!(p.advance(SessionEvent::DeviceCreated(false)), SessionAction::Ignore);
    assert!(p.is_ready());
}

#[test]
fn session_failures_are_final() {
    let mut p = SessionPhase::new();
    assert_eq!(p.advance(SessionEvent::SurfaceCreated(false)), SessionAction::Abort(InitFailure::Surface));
    assert_eq!(p.advance(SessionEvent::SurfaceCreated(true)), SessionAction::Ignore);
    assert_eq!(p, SessionPhase::Failed(InitFailure::Surface));

    let mut p = SessionPhase::new();
    p.advance(SessionEvent::SurfaceCreated(true));
    assert_eq!(p.advance(SessionEvent::AdapterFound(false)), SessionAction::Abort(InitFailure::Adapter));
    assert_eq!(p, SessionPhase::Failed(InitFailure::Adapter));

    let mut p = SessionPhase::new();
    p.advance(SessionEvent::SurfaceCreated(true));
    p.advance(SessionEvent::AdapterFound(true));
    assert_eq!(p.advance(SessionEvent::DeviceCreated(false)), SessionAction::Abort(InitFailure::Device));
    assert_eq!(p.advance(SessionEvent::DeviceCreated(true)), SessionAction::Ignore);
    assert_eq!(p, SessionPhase::Failed(InitFailure::Device));
}

#[test]
fn description_after_typing() {
    let d = ContentI18ned { ja: "こんにちは".to_string(), en: "hello".to_string() };
    assert_eq!(finished_description(&Some(d.clone())), "こんにちは\n");
    assert_eq!(finished_description(&None), "");
    let c = ShaderContent { title: "t".to_string(), description: d };
    assert_eq!(c.description.en, "hello");
}

#[test]
fn theme_and_layout() {
    let t = Theme::initial();
    assert_eq!(t, Theme::Dark);
    assert!(t.is_dark());
    assert_eq!(t.toggled(), Theme::Light);
    assert_eq!(t.toggled().toggled(), Theme::Dark);
    assert_eq!(layout_for_width(767), Layout::Mobile);
    assert_eq!(layout_for_width(768), Layout::Desktop);
}

#[test]
fn markup_text_is_extracted() {
    assert_eq!(
        markup_to_string("<p>Hello <a href=\"/x\">world</a>!</p>".to_string()),
        "Hello world!"
    );
    assert_eq!(markup_to_string("plain".to_string()), "plain");
    assert_eq!(markup_to_string(String::new()), "");
}

#[test]
fn text_nodes_are_joined_in_order() {
    let nodes = vec![Some("a".to_string()), None, Some("bc".to_string()), None];
    assert_eq!(join_text_nodes(&nodes), "abc");
    assert_eq!(join_text_nodes(&vec![]), "");
}

#[test]
fn content_equality_compares_every_text() {
    let a = ShaderContent {
        title: "t".to_string(),
        description: ContentI18ned { ja: "ja".to_string(), en: "en".to_string() },
    };
    let mut b = a.clone();
    assert_eq!(a, b);
    b.description.en = "other".to_string();
    assert_ne!(a, b);
    assert_ne!(a.description, b.description);
}
