//! The renderer's state, and the decisions it takes before and after each
//! request to the native engine.

use vstd::prelude::*;
use crate::bridge::{MapDebugOptions, MapMode, MapProjectionType, NativeCall};
use crate::builder::RendererOptions;
use crate::raster::{Image, decoded_frame, image_dimensions, image_samples};

verus! {

/// Internal state type to render a static map image.
#[derive(Debug)]
pub struct Static;

/// Internal state type to render a map tile.
#[derive(Debug)]
pub struct Tile;

/// What a renderer knows of itself: whether a style has been given to the
/// engine, and the projection its images are rendered in.
#[derive(Debug, Clone, Copy, PartialEq, Eq, Structural)]
pub struct RendererState {
    pub style_specified: bool,
    pub map_projection: MapProjectionType,
}

/// Errors that can occur during map rendering operations.
#[derive(Debug, Clone, Copy, PartialEq, Eq, Structural)]
pub enum RenderingError {
    /// Style must be specified before rendering can occur.
    StyleNotSpecified,
    /// The renderer returned invalid or corrupted image data.
    InvalidImageData,
}

impl RenderingError {
    pub open spec fn spec_message(self) -> Seq<char> {
        match self {
            RenderingError::StyleNotSpecified => "Style must be specified to render a tile"@,
            RenderingError::InvalidImageData => "Invalid image data received from renderer"@,
        }
    }

    /// The error's message, as it is displayed.
    pub fn message(&self) -> (s: &'static str)
        ensures
            s@ == self.spec_message(),
    {
        match self {
            RenderingError::StyleNotSpecified => "Style must be specified to render a tile",
            RenderingError::InvalidImageData => "Invalid image data received from renderer",
        }
    }
}

/// Why a style file could not be loaded.
#[derive(Debug, Clone, Copy, PartialEq, Eq, Structural)]
pub enum StylePathError {
    /// The path is not a file.
    NotFound,
    /// The path is not valid UTF-8.
    InvalidData,
}

/// How the engine is to draw a static image, once the camera is placed at the
/// requested latitude, longitude and zoom.
#[derive(Debug, Clone, Copy, PartialEq, Eq, Structural)]
pub struct StaticRender {
    /// The camera takes the requested bearing and pitch; otherwise both are zero.
    pub use_bearing_and_pitch: bool,
    /// The rendered image is then re-projected onto a globe.
    pub apply_globe_projection: bool,
}

/// What the engine is created with: the map mode and the builder's options.
/// The engine is created first; its projection is then set to the options' one.
pub struct RendererSetup {
    pub map_mode: MapMode,
    pub options: RendererOptions,
}

/// A map renderer in mode `S` ([`Static`] or [`Tile`]).
///
/// It holds the renderer's [`RendererState`]; each operation returns what the
/// native engine has to be asked to do.
pub struct ImageRenderer<S> {
    state: RendererState,
    _marker: std::marker::PhantomData<S>,
}

impl<S> View for ImageRenderer<S> {
    type V = RendererState;

    closed spec fn view(&self) -> RendererState {
        self.state
    }
}

/// The state of a newly created renderer.
pub open spec fn initial_state(map_projection: MapProjectionType) -> RendererState {
    RendererState { style_specified: false, map_projection }
}

/// The state once a style has been loaded.
pub open spec fn after_style_loaded(s: RendererState) -> RendererState {
    RendererState { style_specified: true, ..s }
}

/// The state once the projection has been set.
pub open spec fn after_set_projection(s: RendererState, p: MapProjectionType) -> RendererState {
    RendererState { map_projection: p, ..s }
}

/// The outcome of loading a style from a path, given whether the path is a file
/// and its text when it is valid UTF-8.
pub open spec fn style_path_outcome(is_file: bool, path: Option<Seq<char>>) -> Result<
    Seq<char>,
    StylePathError,
> {
    if !is_file {
        Err(StylePathError::NotFound)
    } else {
        match path {
            None => Err(StylePathError::InvalidData),
            Some(p) => Ok("file://"@ + p),
        }
    }
}

/// The characters of an optional string.
pub open spec fn optional_text(s: Option<&str>) -> Option<Seq<char>> {
    match s {
        Some(t) => Some(t@),
        None => None,
    }
}

/// What rendering a static image from state `s` does.
pub open spec fn static_render_outcome(s: RendererState) -> Result<StaticRender, RenderingError> {
    if !s.style_specified {
        Err(RenderingError::StyleNotSpecified)
    } else {
        let globe = s.map_projection == MapProjectionType::Globe;
        Ok(StaticRender { use_bearing_and_pitch: !globe, apply_globe_projection: globe })
    }
}

/// What rendering a tile from state `s` does.
pub open spec fn tile_render_outcome(s: RendererState) -> Result<(), RenderingError> {
    if !s.style_specified {
        Err(RenderingError::StyleNotSpecified)
    } else {
        Ok(())
    }
}

impl<S> ImageRenderer<S> {
    /// Creates a new renderer, and what the engine is to be created with.
    pub(crate) fn new(map_mode: MapMode, options: RendererOptions) -> (r: (
        ImageRenderer<S>,
        RendererSetup,
    ))
        ensures
            r.0@ == initial_state(options.map_projection),
            r.1.map_mode == map_mode,
            r.1.options == options,
    {
        let state = RendererState { style_specified: false, map_projection: options.map_projection };
        (
            ImageRenderer { state, _marker: std::marker::PhantomData },
            RendererSetup { map_mode, options },
        )
    }

    /// Set the style URL for the map.
    pub fn load_style_from_url(&mut self, url: &str) -> (call: NativeCall)
        ensures
            final(self)@ == after_style_loaded(old(self)@),
            call matches NativeCall::LoadStyle(u) && u@ == url@,
    {
        self.state.style_specified = true;
        NativeCall::LoadStyle(String::from_str(url))
    }

    /// Load the style from the file at `path`, given whether the path is a file
    /// and its text when it is valid UTF-8.
    ///
    /// The style is loaded from the path, but won't be refreshed automatically if
    /// the file changes.
    ///
    /// # Errors
    /// `NotFound` if the path is not a file; `InvalidData` if it is not valid UTF-8.
    pub fn load_style_from_path(&mut self, is_file: bool, path: Option<&str>) -> (r: Result<
        NativeCall,
        StylePathError,
    >)
        ensures
            match style_path_outcome(is_file, optional_text(path)) {
                Ok(u) => {
                    &&& final(self)@ == after_style_loaded(old(self)@)
                    &&& r matches Ok(NativeCall::LoadStyle(call_url)) && call_url@ == u
                },
                Err(e) => final(self)@ == old(self)@ && r == Err::<NativeCall, _>(e),
            },
    {
        if !is_file {
            return Err(StylePathError::NotFound);
        }
        match path {
            None => Err(StylePathError::InvalidData),
            Some(p) => {
                let mut url = String::from_str("file://");
                url.append(p);
                self.state.style_specified = true;
                Ok(NativeCall::LoadStyle(url))
            },
        }
    }

    /// Set debug visualization flags for the map renderer.
    pub fn set_debug_flags(&mut self, flags: MapDebugOptions) -> (call: NativeCall)
        ensures
            final(self)@ == old(self)@,
            call == NativeCall::SetDebugFlags(flags),
    {
        NativeCall::SetDebugFlags(flags)
    }

    /// Sets map projection mode.
    pub fn set_projection(&mut self, projection: MapProjectionType)
        ensures
            final(self)@ == after_set_projection(old(self)@, projection),
    {
        self.state.map_projection = projection;
    }

    /// Whether a style has been given to the engine.
    pub fn style_specified(&self) -> (r: bool)
        ensures
            r == self@.style_specified,
    {
        self.state.style_specified
    }

    /// Returns map projection mode.
    pub fn projection(&self) -> (p: MapProjectionType)
        ensures
            p == self@.map_projection,
    {
        self.state.map_projection
    }
}

impl ImageRenderer<Static> {
    /// Decide how to render a static image where the camera can be freely controlled.
    ///
    /// # Errors
    /// `StyleNotSpecified` if no style has been loaded.
    pub fn render_static(&self) -> (r: Result<StaticRender, RenderingError>)
        ensures
            r == static_render_outcome(self@),
    {
        if !self.state.style_specified {
            return Err(RenderingError::StyleNotSpecified);
        }
        let globe = match self.state.map_projection {
            MapProjectionType::Globe => true,
            MapProjectionType::Mercator => false,
        };
        Ok(StaticRender { use_bearing_and_pitch: !globe, apply_globe_projection: globe })
    }
}

impl ImageRenderer<Tile> {
    /// Decide whether a top-down tile can be rendered.
    ///
    /// # Errors
    /// `StyleNotSpecified` if no style has been loaded.
    pub fn render_tile(&self) -> (r: Result<(), RenderingError>)
        ensures
            r == tile_render_outcome(self@),
    {
        if !self.state.style_specified {
            return Err(RenderingError::StyleNotSpecified);
        }
        Ok(())
    }
}

/// Reads the image that the engine rendered from its raw bytes.
///
/// # Errors
/// `InvalidImageData` if the bytes do not hold an image.
pub fn image_from_render(bytes: &[u8]) -> (r: Result<Image, RenderingError>)
    ensures
        match decoded_frame(bytes@) {
            Some((w, h, data)) => r matches Ok(img) && image_dimensions(img) == (w, h)
                && image_samples(img) == data,
            None => r == Err::<Image, _>(RenderingError::InvalidImageData),
        },
{
    match Image::from_raw(bytes) {
        Some(img) => Ok(img),
        None => Err(RenderingError::InvalidImageData),
    }
}

/// The projection that was set last is the one the renderer reports, and setting
/// it leaves the style untouched.
pub proof fn projection_round_trip(s: RendererState, p: MapProjectionType, q: MapProjectionType)
    ensures
        after_set_projection(s, p).map_projection == p,
        after_set_projection(s, p).style_specified == s.style_specified,
        after_set_projection(after_set_projection(s, p), q) == after_set_projection(s, q),
{
}

/// A renderer starts without a style and with the projection it was built with,
/// so rendering is refused until a style is loaded.
pub proof fn new_renderer_needs_a_style(p: MapProjectionType)
    ensures
        initial_state(p).map_projection == p,
        static_render_outcome(initial_state(p)) == Err::<StaticRender, _>(
            RenderingError::StyleNotSpecified,
        ),
        tile_render_outcome(initial_state(p)) == Err::<(), _>(RenderingError::StyleNotSpecified),
{
}

/// Rendering is refused with `StyleNotSpecified` exactly when no style has been
/// loaded; once one is, no later projection change takes it away.
pub proof fn rendering_needs_a_style(s: RendererState, p: MapProjectionType)
    ensures
        (static_render_outcome(s) == Err::<StaticRender, _>(RenderingError::StyleNotSpecified))
            <==> !s.style_specified,
        static_render_outcome(s) is Ok <==> s.style_specified,
        (tile_render_outcome(s) == Err::<(), _>(RenderingError::StyleNotSpecified))
            <==> !s.style_specified,
        tile_render_outcome(s) is Ok <==> s.style_specified,
        static_render_outcome(after_style_loaded(s)) is Ok,
        tile_render_outcome(after_style_loaded(s)) is Ok,
        after_set_projection(after_style_loaded(s), p).style_specified,
        after_style_loaded(after_style_loaded(s)) == after_style_loaded(s),
{
}

/// In the globe projection the camera ignores the requested bearing and pitch and
/// the image is re-projected onto the globe; in Web Mercator the camera takes
/// them and the image is returned as rendered.
pub proof fn globe_renders_north_up(s: RendererState)
    requires
        s.style_specified,
    ensures
        static_render_outcome(s) matches Ok(plan) && {
            &&& plan.apply_globe_projection <==> s.map_projection == MapProjectionType::Globe
            &&& plan.use_bearing_and_pitch <==> s.map_projection == MapProjectionType::Mercator
        },
{
}

/// A style file is handed to the engine as the URL `file://` followed by the
/// path's text exactly as given, relative paths included; a path that is not a
/// file is refused as not found, and a file path that is not valid UTF-8 as
/// invalid data.
pub proof fn style_path_law(p: Seq<char>, path: Option<Seq<char>>)
    ensures
        style_path_outcome(true, Some(p)) == Ok::<Seq<char>, StylePathError>(
            seq!['f', 'i', 'l', 'e', ':', '/', '/'] + p,
        ),
        style_path_outcome(true, Some(p)) matches Ok(u) && u.len() == p.len() + 7 && u.subrange(
            7,
            u.len() as int,
        ) == p,
        style_path_outcome(false, path) == Err::<Seq<char>, _>(StylePathError::NotFound),
        style_path_outcome(true, None) == Err::<Seq<char>, _>(StylePathError::InvalidData),
{
    reveal_strlit("file://");
    assert("file://"@ =~= seq!['f', 'i', 'l', 'e', ':', '/', '/']);
    let u = seq!['f', 'i', 'l', 'e', ':', '/', '/'] + p;
    assert(u.subrange(7, u.len() as int) =~= p);
}

/// The errors read as their documented messages.
pub proof fn rendering_error_messages()
    ensures
        RenderingError::StyleNotSpecified.spec_message()
            == "Style must be specified to render a tile"@,
        RenderingError::InvalidImageData.spec_message()
            == "Invalid image data received from renderer"@,
{
}

} // verus!
