//! Builder defaults and setters.

use std::path::PathBuf;

use maplibre_native::{ImageRendererBuilder, MapProjectionType};

#[test]
fn defaults_are_documented_values() {
    let (_r, setup) = ImageRendererBuilder::new(Some(std::path::PathBuf::from("/srv/maps"))).build_static_renderer();
    let o = setup.options;
    assert_eq!(o.width, 512);
    assert_eq!(o.height, 512);
    assert_eq!(o.pixel_ratio_bits, 1.0f32.to_bits());
    assert_eq!(o.map_projection, MapProjectionType::Mercator);
    assert_eq!(o.cache_path, None);
    assert_eq!(o.asset_root, Some(PathBuf::from("/srv/maps")));
    assert_eq!(o.base_url, "https://demotiles.maplibre.org/");
    let parsed: url::Url = "https://demotiles.maplibre.org".parse().expect("is a valid url");
    assert_eq!(o.base_url, parsed.as_str());
    assert_eq!(o.uri_scheme_alias, "maplibre");
    assert_eq!(o.source_template, "/tiles/{domain}.json");
    assert_eq!(o.style_template, "{path}.json");
    assert_eq!(o.sprites_template, "/{path}/sprite{scale}.{format}");
    assert_eq!(o.glyphs_template, "/font/{fontstack}/{start}-{end}.pbf");
    assert_eq!(o.tile_template, "/{path}");
    assert_eq!(o.api_key_parameter_name, "");
    assert_eq!(o.api_key, "");
    assert!(!o.requires_api_key);
}

#[test]
fn setters_change_only_their_option() {
    let url: url::Url = "https://tiles.example.com".parse().expect("valid url");
    let (_r, setup) = ImageRendererBuilder::new(Some(std::path::PathBuf::from("/srv/maps")))
        .with_size(1024, 768)
        .with_pixel_ratio(2.0f32.to_bits())
        .with_projection(MapProjectionType::Globe)
        .with_cache_path(PathBuf::from("/tmp/cache.db"))
        .with_asset_root(PathBuf::from("/assets"))
        .with_base_url(url.as_str())
        .with_uri_scheme_alias("custom")
        .with_source_template("/s/{domain}.json")
        .with_style_template("/st/{path}.json")
        .with_sprites_template("/sp/{path}")
        .with_glyphs_template("/g/{fontstack}")
        .with_tile_template("/t/{path}")
        .with_api_key_parameter_name("key")
        .with_api_key("secret")
        .set_requires_api_key(true)
        .build_tile_renderer();
    let o = setup.options;
    assert_eq!(o.width, 1024);
    assert_eq!(o.height, 768);
    assert_eq!(f32::from_bits(o.pixel_ratio_bits), 2.0);
    assert_eq!(o.map_projection, MapProjectionType::Globe);
    assert_eq!(o.cache_path, Some(PathBuf::from("/tmp/cache.db")));
    assert_eq!(o.asset_root, Some(PathBuf::from("/assets")));
    assert_eq!(o.base_url, "https://tiles.example.com/");
    assert_eq!(o.uri_scheme_alias, "custom");
    assert_eq!(o.source_template, "/s/{domain}.json");
    assert_eq!(o.style_template, "/st/{path}.json");
    assert_eq!(o.sprites_template, "/sp/{path}");
    assert_eq!(o.glyphs_template, "/g/{fontstack}");
    assert_eq!(o.tile_template, "/t/{path}");
    assert_eq!(o.api_key_parameter_name, "key");
    assert_eq!(o.api_key, "secret");
    assert!(o.requires_api_key);
}

#[test]
fn one_setter_leaves_the_rest_default() {
    let changed = ImageRendererBuilder::new(Some(std::path::PathBuf::from("/srv/maps"))).with_api_key("abc");
    let expected = ImageRendererBuilder::new(Some(std::path::PathBuf::from("/srv/maps"))).with_api_key("abc");
    assert_eq!(changed, expected);
    assert_ne!(changed, ImageRendererBuilder::new(Some(std::path::PathBuf::from("/srv/maps"))));
    assert_eq!(ImageRendererBuilder::new(Some(std::path::PathBuf::from("/srv/maps"))).with_api_key(""), ImageRendererBuilder::new(Some(std::path::PathBuf::from("/srv/maps"))));
}

#[test]
fn assets_root_is_the_given_working_directory() {
    let (_r, setup) = ImageRendererBuilder::new(Some(PathBuf::from("/srv/maps")))
        .build_static_renderer();
    assert_eq!(setup.options.asset_root, Some(PathBuf::from("/srv/maps")));
    let (_r, setup) = ImageRendererBuilder::new(None).build_static_renderer();
    assert_eq!(setup.options.asset_root, None);
}

#[test]
fn default_base_url_equals_the_parsed_default_server() {
    let parsed: url::Url = "https://demotiles.maplibre.org".parse().expect("is a valid url");
    let cwd = Some(PathBuf::from("/srv/maps"));
    assert_eq!(
        ImageRendererBuilder::new(cwd.clone()).with_base_url(parsed.as_str()),
        ImageRendererBuilder::new(cwd)
    );
}

#[test]
fn cloned_builder_is_equal() {
    let builder = ImageRendererBuilder::new(Some(PathBuf::from("/a")))
        .with_cache_path(PathBuf::from("/c"))
        .with_size(3, 4)
        .with_api_key("k");
    let copy = builder.clone();
    assert_eq!(copy, builder);
}
