//! Rendering decisions and style loading.

use maplibre_native::{
    image_from_render, ImageRendererBuilder, MapDebugOptions, MapMode, MapProjectionType,
    NativeCall, RenderingError, StaticRender, StylePathError,
};

fn loaded_url(call: NativeCall) -> String {
    match call {
        NativeCall::LoadStyle(url) => url,
        _ => panic!("expected a style load"),
    }
}

#[test]
fn static_render_refused_without_style() {
    let (renderer, _setup) = ImageRendererBuilder::new(Some(std::path::PathBuf::from("/srv/maps"))).build_static_renderer();
    assert_eq!(renderer.render_static(), Err(RenderingError::StyleNotSpecified));
}

#[test]
fn tile_render_refused_without_style() {
    let (mut renderer, _setup) = ImageRendererBuilder::new(Some(std::path::PathBuf::from("/srv/maps"))).build_tile_renderer();
    assert_eq!(renderer.render_tile(), Err(RenderingError::StyleNotSpecified));
    let call = renderer.load_style_from_url("https://demotiles.maplibre.org/style.json");
    assert_eq!(loaded_url(call), "https://demotiles.maplibre.org/style.json");
    assert_eq!(renderer.render_tile(), Ok(()));
}

#[test]
fn mercator_render_keeps_camera_orientation() {
    let (mut renderer, _setup) = ImageRendererBuilder::new(Some(std::path::PathBuf::from("/srv/maps"))).build_static_renderer();
    let _ = renderer.load_style_from_url("https://example.com/style.json");
    assert_eq!(
        renderer.render_static(),
        Ok(StaticRender { use_bearing_and_pitch: true, apply_globe_projection: false })
    );
}

#[test]
fn globe_render_ignores_bearing_and_pitch() {
    let (mut renderer, _setup) = ImageRendererBuilder::new(Some(std::path::PathBuf::from("/srv/maps")))
        .with_projection(MapProjectionType::Globe)
        .build_static_renderer();
    let _ = renderer.load_style_from_url("https://example.com/style.json");
    assert_eq!(
        renderer.render_static(),
        Ok(StaticRender { use_bearing_and_pitch: false, apply_globe_projection: true })
    );
    renderer.set_projection(MapProjectionType::Mercator);
    assert_eq!(
        renderer.render_static(),
        Ok(StaticRender { use_bearing_and_pitch: true, apply_globe_projection: false })
    );
}

#[test]
fn style_from_missing_file_is_not_found() {
    let (mut renderer, _setup) = ImageRendererBuilder::new(Some(std::path::PathBuf::from("/srv/maps"))).build_static_renderer();
    let r = renderer.load_style_from_path(false, Some("/no/such/style.json"));
    assert!(matches!(r, Err(StylePathError::NotFound)));
    assert_eq!(renderer.render_static(), Err(RenderingError::StyleNotSpecified));
}

#[test]
fn style_from_non_utf8_path_is_invalid_data() {
    let (mut renderer, _setup) = ImageRendererBuilder::new(Some(std::path::PathBuf::from("/srv/maps"))).build_static_renderer();
    let r = renderer.load_style_from_path(true, None);
    assert!(matches!(r, Err(StylePathError::InvalidData)));
    assert_eq!(renderer.render_static(), Err(RenderingError::StyleNotSpecified));
}

#[test]
fn style_from_file_loads_file_url() {
    let (mut renderer, _setup) = ImageRendererBuilder::new(Some(std::path::PathBuf::from("/srv/maps"))).build_static_renderer();
    let r = renderer.load_style_from_path(true, Some("/data/test-style.json"));
    match r {
        Ok(call) => assert_eq!(loaded_url(call), "file:///data/test-style.json"),
        Err(_) => panic!("a file path with valid text loads"),
    }
    assert!(renderer.render_static().is_ok());
}

#[test]
fn debug_flags_are_forwarded() {
    let (mut renderer, _setup) = ImageRendererBuilder::new(Some(std::path::PathBuf::from("/srv/maps"))).build_static_renderer();
    match renderer.set_debug_flags(MapDebugOptions::Collision) {
        NativeCall::SetDebugFlags(flags) => assert_eq!(flags, MapDebugOptions::Collision),
        _ => panic!("expected debug flags"),
    }
    assert_eq!(renderer.projection(), MapProjectionType::Mercator);
    assert_eq!(renderer.render_static(), Err(RenderingError::StyleNotSpecified));
}

#[test]
fn debug_flag_bits() {
    assert_eq!(MapDebugOptions::NoDebug.bits(), 0);
    assert_eq!(MapDebugOptions::TileBorders.bits(), 2);
    assert_eq!(MapDebugOptions::ParseStatus.bits(), 4);
    assert_eq!(MapDebugOptions::Timestamps.bits(), 8);
    assert_eq!(MapDebugOptions::Collision.bits(), 16);
    assert_eq!(MapDebugOptions::Overdraw.bits(), 32);
    assert_eq!(MapDebugOptions::StencilClip.bits(), 64);
    assert_eq!(MapDebugOptions::DepthBuffer.bits(), 128);
    assert_eq!(MapDebugOptions::Flags(2 | 16).bits(), 18);
}

#[test]
fn build_modes() {
    let (_r, setup) = ImageRendererBuilder::new(Some(std::path::PathBuf::from("/srv/maps"))).build_static_renderer();
    assert_eq!(setup.map_mode, MapMode::Static);
    let (_r, setup) = ImageRendererBuilder::new(Some(std::path::PathBuf::from("/srv/maps"))).build_tile_renderer();
    assert_eq!(setup.map_mode, MapMode::Tile);
}

#[test]
fn rendering_error_messages() {
    assert_eq!(
        RenderingError::StyleNotSpecified.message(),
        "Style must be specified to render a tile"
    );
    assert_eq!(
        RenderingError::InvalidImageData.message(),
        "Invalid image data received from renderer"
    );
}

#[test]
fn short_render_output_is_invalid() {
    assert!(matches!(image_from_render(&[1, 2, 3]), Err(RenderingError::InvalidImageData)));
}

#[test]
fn loading_a_style_is_remembered() {
    let (mut renderer, _setup) = ImageRendererBuilder::new(Some(std::path::PathBuf::from("/srv/maps"))).build_static_renderer();
    assert!(!renderer.style_specified());
    let _ = renderer.load_style_from_url("https://example.com/style.json");
    assert!(renderer.style_specified());
    renderer.set_projection(MapProjectionType::Globe);
    let _ = renderer.set_debug_flags(MapDebugOptions::Overdraw);
    let _ = renderer.load_style_from_path(false, None);
    assert!(renderer.style_specified());
}
