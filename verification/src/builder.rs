//! Image renderer configuration and builder.

use vstd::prelude::*;
use crate::bridge::{MapMode, MapProjectionType};
use crate::renderer::{ImageRenderer, RendererSetup, Static, Tile, initial_state};

verus! {

#[verifier::external_type_specification]
#[verifier::external_body]
pub struct ExPathBuf(std::path::PathBuf);

/// `PathBuf::clone`: a path with the same contents.
pub assume_specification[ <std::path::PathBuf as Clone>::clone ](path: &std::path::PathBuf) -> (r:
    std::path::PathBuf)
    ensures
        r == *path,
;

/// The IEEE-754 single-precision bit pattern of the pixel ratio `1.0`.
pub const DEFAULT_PIXEL_RATIO_BITS: u32 = 0x3F80_0000u32;

/// Everything the builder configures; the engine is created from it.
///
/// The pixel ratio is carried as the bit pattern of its `f32` value: the library
/// hands it on and never computes with it. The base URL is held as the text the
/// engine receives: the serialization of the tile server's URL.
#[derive(Debug, PartialEq)]
pub struct RendererOptions {
    /// Image width in pixels
    pub width: u32,
    /// Image height in pixels
    pub height: u32,
    /// Pixel ratio for high-DPI displays, as the bits of an `f32`
    pub pixel_ratio_bits: u32,
    /// Map projection mode
    pub map_projection: MapProjectionType,
    /// Cache database file path
    pub cache_path: Option<std::path::PathBuf>,
    /// Assets root directory
    pub asset_root: Option<std::path::PathBuf>,
    /// Base URL for tile server
    pub base_url: String,
    /// Custom URI scheme alias
    pub uri_scheme_alias: String,
    /// Source JSON URL template
    pub source_template: String,
    /// Style JSON URL template
    pub style_template: String,
    /// Sprite URL template
    pub sprites_template: String,
    /// Glyph URL template
    pub glyphs_template: String,
    /// Tile URL template
    pub tile_template: String,
    /// API key for tile sources
    pub api_key: String,
    /// API key parameter name
    pub api_key_parameter_name: String,
    /// Whether API key is required
    pub requires_api_key: bool,
}

/// Builder for configuring [`ImageRenderer`] instances.
#[derive(Debug, PartialEq)]
pub struct ImageRendererBuilder {
    options: RendererOptions,
}

fn clone_path(path: &Option<std::path::PathBuf>) -> (r: Option<std::path::PathBuf>)
    ensures
        r == *path,
{
    match path {
        Some(p) => Some(p.clone()),
        None => None,
    }
}

impl Clone for RendererOptions {
    fn clone(&self) -> (r: Self)
        ensures
            r == *self,
    {
        RendererOptions {
            width: self.width,
            height: self.height,
            pixel_ratio_bits: self.pixel_ratio_bits,
            map_projection: self.map_projection,
            cache_path: clone_path(&self.cache_path),
            asset_root: clone_path(&self.asset_root),
            base_url: self.base_url.clone(),
            uri_scheme_alias: self.uri_scheme_alias.clone(),
            source_template: self.source_template.clone(),
            style_template: self.style_template.clone(),
            sprites_template: self.sprites_template.clone(),
            glyphs_template: self.glyphs_template.clone(),
            tile_template: self.tile_template.clone(),
            api_key: self.api_key.clone(),
            api_key_parameter_name: self.api_key_parameter_name.clone(),
            requires_api_key: self.requires_api_key,
        }
    }
}

impl Clone for ImageRendererBuilder {
    fn clone(&self) -> (r: Self)
        ensures
            r@ == self@,
    {
        proof {
            use_type_invariant(self);
        }
        ImageRendererBuilder { options: self.options.clone() }
    }
}

impl View for ImageRendererBuilder {
    type V = RendererOptions;

    closed spec fn view(&self) -> RendererOptions {
        self.options
    }
}

impl ImageRendererBuilder {
    /// The image has at least one pixel in each direction.
    #[verifier::type_invariant]
    spec fn well_formed(self) -> bool {
        self.options.width > 0 && self.options.height > 0
    }

    /// Whether `o` holds the documented defaults (the tile server's URL as its
    /// serialization, with the trailing slash), the assets root being the
    /// working directory `current_dir` (if it could be read).
    pub open spec fn is_default(o: RendererOptions, current_dir: Option<std::path::PathBuf>) -> bool {
        &&& o.width == 512
        &&& o.height == 512
        &&& o.pixel_ratio_bits == DEFAULT_PIXEL_RATIO_BITS
        &&& o.map_projection == MapProjectionType::Mercator
        &&& o.cache_path is None
        &&& o.asset_root == current_dir
        &&& o.base_url@ == "https://demotiles.maplibre.org/"@
        &&& o.uri_scheme_alias@ == "maplibre"@
        &&& o.source_template@ == "/tiles/{domain}.json"@
        &&& o.style_template@ == "{path}.json"@
        &&& o.sprites_template@ == "/{path}/sprite{scale}.{format}"@
        &&& o.glyphs_template@ == "/font/{fontstack}/{start}-{end}.pbf"@
        &&& o.tile_template@ == "/{path}"@
        &&& o.api_key_parameter_name@ == ""@
        &&& o.api_key@ == ""@
        &&& !o.requires_api_key
    }

    /// Creates a new builder with default values, given the process's current
    /// working directory (`None` if it could not be read) as the assets root.
    pub fn new(current_dir: Option<std::path::PathBuf>) -> (r: Self)
        ensures
            Self::is_default(r@, current_dir),
    {
        ImageRendererBuilder {
            options: RendererOptions {
                width: 512,
                height: 512,
                pixel_ratio_bits: DEFAULT_PIXEL_RATIO_BITS,
                map_projection: MapProjectionType::Mercator,
                cache_path: None,
                asset_root: current_dir,
                base_url: String::from_str("https://demotiles.maplibre.org/"),
                uri_scheme_alias: String::from_str("maplibre"),
                source_template: String::from_str("/tiles/{domain}.json"),
                style_template: String::from_str("{path}.json"),
                sprites_template: String::from_str("/{path}/sprite{scale}.{format}"),
                glyphs_template: String::from_str("/font/{fontstack}/{start}-{end}.pbf"),
                tile_template: String::from_str("/{path}"),
                api_key: String::from_str(""),
                api_key_parameter_name: String::from_str(""),
                requires_api_key: false,
            },
        }
    }

    /// Sets image dimensions. Default: `512` x `512`.
    pub fn with_size(self, width: u32, height: u32) -> (r: Self)
        requires
            width > 0,
            height > 0,
        ensures
            r@ == (RendererOptions { width, height, ..self@ }),
    {
        proof {
            use_type_invariant(&self);
        }
        let mut options = self.options;
        options.width = width;
        options.height = height;
        ImageRendererBuilder { options }
    }

    /// Sets pixel ratio for high-DPI displays, given by the bit pattern of its
    /// `f32` value. Default: `1.0`
    pub fn with_pixel_ratio(self, pixel_ratio_bits: u32) -> (r: Self)
        ensures
            r@ == (RendererOptions { pixel_ratio_bits, ..self@ }),
    {
        proof {
            use_type_invariant(&self);
        }
        let mut options = self.options;
        options.pixel_ratio_bits = pixel_ratio_bits;
        ImageRendererBuilder { options }
    }

    /// Sets map projection mode. Default: `MapProjectionType::Mercator`
    pub fn with_projection(self, map_projection: MapProjectionType) -> (r: Self)
        ensures
            r@ == (RendererOptions { map_projection, ..self@ }),
    {
        proof {
            use_type_invariant(&self);
        }
        let mut options = self.options;
        options.map_projection = map_projection;
        ImageRendererBuilder { options }
    }

    /// Sets cache database file path. Default: no cache
    pub fn with_cache_path(self, cache_path: std::path::PathBuf) -> (r: Self)
        ensures
            r@ == (RendererOptions { cache_path: Some(cache_path), ..self@ }),
    {
        proof {
            use_type_invariant(&self);
        }
        let mut options = self.options;
        options.cache_path = Some(cache_path);
        ImageRendererBuilder { options }
    }

    /// Sets assets root directory. Default: current working directory
    pub fn with_asset_root(self, asset_root: std::path::PathBuf) -> (r: Self)
        ensures
            r@ == (RendererOptions { asset_root: Some(asset_root), ..self@ }),
    {
        proof {
            use_type_invariant(&self);
        }
        let mut options = self.options;
        options.asset_root = Some(asset_root);
        ImageRendererBuilder { options }
    }

    /// Sets tile server base URL, given by its serialization.
    /// Default: <https://demotiles.maplibre.org>
    pub fn with_base_url(self, base_url: &str) -> (r: Self)
        ensures
            r@.base_url@ == base_url@,
            r@ == (RendererOptions { base_url: r@.base_url, ..self@ }),
    {
        proof {
            use_type_invariant(&self);
        }
        let mut options = self.options;
        options.base_url = String::from_str(base_url);
        ImageRendererBuilder { options }
    }

    /// Sets custom URI scheme alias. Default: "maplibre"
    pub fn with_uri_scheme_alias(self, uri_scheme_alias: &str) -> (r: Self)
        ensures
            r@.uri_scheme_alias@ == uri_scheme_alias@,
            r@ == (RendererOptions { uri_scheme_alias: r@.uri_scheme_alias, ..self@ }),
    {
        proof {
            use_type_invariant(&self);
        }
        let mut options = self.options;
        options.uri_scheme_alias = String::from_str(uri_scheme_alias);
        ImageRendererBuilder { options }
    }

    /// Sets source JSON URL template. Default: "/tiles/{domain}.json"
    pub fn with_source_template(self, source_template: &str) -> (r: Self)
        ensures
            r@.source_template@ == source_template@,
            r@ == (RendererOptions { source_template: r@.source_template, ..self@ }),
    {
        proof {
            use_type_invariant(&self);
        }
        let mut options = self.options;
        options.source_template = String::from_str(source_template);
        ImageRendererBuilder { options }
    }

    /// Sets style JSON URL template. Default: "{path}.json"
    pub fn with_style_template(self, style_template: &str) -> (r: Self)
        ensures
            r@.style_template@ == style_template@,
            r@ == (RendererOptions { style_template: r@.style_template, ..self@ }),
    {
        proof {
            use_type_invariant(&self);
        }
        let mut options = self.options;
        options.style_template = String::from_str(style_template);
        ImageRendererBuilder { options }
    }

    /// Sets sprite URL template. Default: "/{path}/sprite{scale}.{format}"
    pub fn with_sprites_template(self, sprites_template: &str) -> (r: Self)
        ensures
            r@.sprites_template@ == sprites_template@,
            r@ == (RendererOptions { sprites_template: r@.sprites_template, ..self@ }),
    {
        proof {
            use_type_invariant(&self);
        }
        let mut options = self.options;
        options.sprites_template = String::from_str(sprites_template);
        ImageRendererBuilder { options }
    }

    /// Sets glyph URL template. Default: "/font/{fontstack}/{start}-{end}.pbf"
    pub fn with_glyphs_template(self, glyphs_template: &str) -> (r: Self)
        ensures
            r@.glyphs_template@ == glyphs_template@,
            r@ == (RendererOptions { glyphs_template: r@.glyphs_template, ..self@ }),
    {
        proof {
            use_type_invariant(&self);
        }
        let mut options = self.options;
        options.glyphs_template = String::from_str(glyphs_template);
        ImageRendererBuilder { options }
    }

    /// Sets tile URL template. Default: "/{path}"
    pub fn with_tile_template(self, tile_template: &str) -> (r: Self)
        ensures
            r@.tile_template@ == tile_template@,
            r@ == (RendererOptions { tile_template: r@.tile_template, ..self@ }),
    {
        proof {
            use_type_invariant(&self);
        }
        let mut options = self.options;
        options.tile_template = String::from_str(tile_template);
        ImageRendererBuilder { options }
    }

    /// Sets API key parameter name. Default: ""
    pub fn with_api_key_parameter_name(self, api_key_parameter_name: &str) -> (r: Self)
        ensures
            r@.api_key_parameter_name@ == api_key_parameter_name@,
            r@ == (RendererOptions { api_key_parameter_name: r@.api_key_parameter_name, ..self@ }),
    {
        proof {
            use_type_invariant(&self);
        }
        let mut options = self.options;
        options.api_key_parameter_name = String::from_str(api_key_parameter_name);
        ImageRendererBuilder { options }
    }

    /// Sets API key. Default: ""
    pub fn with_api_key(self, api_key: &str) -> (r: Self)
        ensures
            r@.api_key@ == api_key@,
            r@ == (RendererOptions { api_key: r@.api_key, ..self@ }),
    {
        proof {
            use_type_invariant(&self);
        }
        let mut options = self.options;
        options.api_key = String::from_str(api_key);
        ImageRendererBuilder { options }
    }

    /// Sets whether API key is required. Default: `false`
    pub fn set_requires_api_key(self, requires_api_key: bool) -> (r: Self)
        ensures
            r@ == (RendererOptions { requires_api_key, ..self@ }),
    {
        proof {
            use_type_invariant(&self);
        }
        let mut options = self.options;
        options.requires_api_key = requires_api_key;
        ImageRendererBuilder { options }
    }

    /// Builds a static image renderer, and what the engine is to be created with.
    pub fn build_static_renderer(self) -> (r: (ImageRenderer<Static>, RendererSetup))
        ensures
            r.0@ == initial_state(self@.map_projection),
            r.1.map_mode == MapMode::Static,
            r.1.options == self@,
            r.1.options.width > 0 && r.1.options.height > 0,
    {
        proof {
            use_type_invariant(&self);
        }
        ImageRenderer::new(MapMode::Static, self.options)
    }

    /// Builds a tile renderer, and what the engine is to be created with.
    pub fn build_tile_renderer(self) -> (r: (ImageRenderer<Tile>, RendererSetup))
        ensures
            r.0@ == initial_state(self@.map_projection),
            r.1.map_mode == MapMode::Tile,
            r.1.options == self@,
            r.1.options.width > 0 && r.1.options.height > 0,
    {
        proof {
            use_type_invariant(&self);
        }
        ImageRenderer::new(MapMode::Tile, self.options)
    }
}

} // verus!
