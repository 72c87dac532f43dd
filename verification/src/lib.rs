//! Verified core of the MapLibre Native bindings.

pub mod bridge;
pub mod builder;
pub mod raster;
pub mod renderer;
pub mod text;

pub use bridge::{
    log_from_cpp, set_log_thread_enabled, Event, EventSeverity, LogLevel, LogRecord,
    MapDebugOptions, MapMode, MapProjectionType, NativeCall,
};
pub use builder::{ImageRendererBuilder, RendererOptions};
pub use raster::Image;
pub use renderer::{
    image_from_render, ImageRenderer, RendererSetup, RendererState, RenderingError, Static,
    StaticRender, StylePathError, Tile,
};
