//! Values exchanged with the native map engine, and the decisions taken on
//! what it reports.

use vstd::prelude::*;
use crate::text::{decimal_text, push_decimal_i64};

verus! {

/// Map rendering mode configuration.
#[derive(Debug, Clone, Copy, PartialEq, Eq, Structural)]
pub enum MapMode {
    /// Continually updating map
    Continuous,
    /// Once-off still image of an arbitrary viewport
    Static,
    /// Once-off still image of a single tile
    Tile,
}

/// Map projection mode.
#[derive(Debug, Clone, Copy, PartialEq, Eq, Hash, Structural)]
pub enum MapProjectionType {
    /// Render in standard Web Mercator.
    Mercator,
    /// Render using the globe projection.
    Globe,
}

impl Default for MapProjectionType {
    fn default() -> (r: MapProjectionType)
        ensures
            r == MapProjectionType::Mercator,
    {
        MapProjectionType::Mercator
    }
}

/// Debug visualization options for map rendering.
#[derive(Debug, Clone, Copy, PartialEq, Eq, Structural)]
pub enum MapDebugOptions {
    /// No debug visualization.
    NoDebug,
    /// Edges of tile boundaries are shown as thick, red lines.
    TileBorders,
    /// Shows tile parsing status information.
    ParseStatus,
    /// Each tile shows a timestamp indicating when it was loaded.
    Timestamps,
    /// Edges of glyphs and symbols are shown as faint, green lines.
    Collision,
    /// Each drawing operation is replaced by a translucent fill.
    Overdraw,
    /// The stencil buffer is shown instead of the color buffer.
    StencilClip,
    /// The depth buffer is shown instead of the color buffer.
    DepthBuffer,
    /// Any other value, given by its bits (such as a combination of options).
    Flags(u32),
}

impl MapDebugOptions {
    /// The value the engine reads for the option: its flag bit (none for
    /// `NoDebug`), or the given bits.
    pub open spec fn spec_bits(self) -> u32 {
        match self {
            MapDebugOptions::NoDebug => 0,
            MapDebugOptions::TileBorders => 2,
            MapDebugOptions::ParseStatus => 4,
            MapDebugOptions::Timestamps => 8,
            MapDebugOptions::Collision => 16,
            MapDebugOptions::Overdraw => 32,
            MapDebugOptions::StencilClip => 64,
            MapDebugOptions::DepthBuffer => 128,
            MapDebugOptions::Flags(bits) => bits,
        }
    }

    /// The value handed to the engine for this option.
    pub fn bits(&self) -> (r: u32)
        ensures
            r == self.spec_bits(),
    {
        match self {
            MapDebugOptions::NoDebug => 0,
            MapDebugOptions::TileBorders => 2,
            MapDebugOptions::ParseStatus => 4,
            MapDebugOptions::Timestamps => 8,
            MapDebugOptions::Collision => 16,
            MapDebugOptions::Overdraw => 32,
            MapDebugOptions::StencilClip => 64,
            MapDebugOptions::DepthBuffer => 128,
            MapDebugOptions::Flags(bits) => *bits,
        }
    }
}

/// MapLibre Native event severity levels.
///
/// The engine hands severities over as raw bytes; a byte that names none of the
/// known levels is kept as `Other`.
#[derive(Debug, Clone, Copy, PartialEq, Eq, Hash, Structural)]
pub enum EventSeverity {
    Debug,
    Info,
    Warning,
    Error,
    Other(u8),
}

impl EventSeverity {
    pub open spec fn spec_repr(self) -> u8 {
        match self {
            EventSeverity::Debug => 0,
            EventSeverity::Info => 1,
            EventSeverity::Warning => 2,
            EventSeverity::Error => 3,
            EventSeverity::Other(r) => r,
        }
    }

    /// The raw byte the engine uses for this severity.
    pub fn repr(&self) -> (r: u8)
        ensures
            r == self.spec_repr(),
    {
        match self {
            EventSeverity::Debug => 0,
            EventSeverity::Info => 1,
            EventSeverity::Warning => 2,
            EventSeverity::Error => 3,
            EventSeverity::Other(r) => *r,
        }
    }

    /// The severity that the engine's raw byte stands for.
    pub fn from_repr(repr: u8) -> (s: EventSeverity)
        ensures
            s.spec_repr() == repr,
            repr > 3 <==> s is Other,
    {
        if repr == 0 {
            EventSeverity::Debug
        } else if repr == 1 {
            EventSeverity::Info
        } else if repr == 2 {
            EventSeverity::Warning
        } else if repr == 3 {
            EventSeverity::Error
        } else {
            EventSeverity::Other(repr)
        }
    }
}

/// MapLibre Native event types.
///
/// A byte that names none of the known types is kept as `Other`.
#[derive(Debug, Clone, Copy, PartialEq, Eq, Hash, Structural)]
pub enum Event {
    General,
    Setup,
    Shader,
    ParseStyle,
    ParseTile,
    Render,
    Style,
    Database,
    HttpRequest,
    Sprite,
    Image,
    OpenGL,
    JNI,
    Android,
    Crash,
    Glyph,
    Timing,
    Other(u8),
}

impl Event {
    pub open spec fn spec_repr(self) -> u8 {
        match self {
            Event::General => 0,
            Event::Setup => 1,
            Event::Shader => 2,
            Event::ParseStyle => 3,
            Event::ParseTile => 4,
            Event::Render => 5,
            Event::Style => 6,
            Event::Database => 7,
            Event::HttpRequest => 8,
            Event::Sprite => 9,
            Event::Image => 10,
            Event::OpenGL => 11,
            Event::JNI => 12,
            Event::Android => 13,
            Event::Crash => 14,
            Event::Glyph => 15,
            Event::Timing => 16,
            Event::Other(r) => r,
        }
    }

    /// The event type that the engine's raw byte stands for.
    pub fn from_repr(repr: u8) -> (e: Event)
        ensures
            e.spec_repr() == repr,
            repr > 16 <==> e is Other,
    {
        match repr {
            0 => Event::General,
            1 => Event::Setup,
            2 => Event::Shader,
            3 => Event::ParseStyle,
            4 => Event::ParseTile,
            5 => Event::Render,
            6 => Event::Style,
            7 => Event::Database,
            8 => Event::HttpRequest,
            9 => Event::Sprite,
            10 => Event::Image,
            11 => Event::OpenGL,
            12 => Event::JNI,
            13 => Event::Android,
            14 => Event::Crash,
            15 => Event::Glyph,
            16 => Event::Timing,
            _ => Event::Other(repr),
        }
    }

    /// How the event type reads in a log line: its name, or `Event(<byte>)`
    /// for a byte that names no known type.
    pub open spec fn spec_label(self) -> Seq<char> {
        match self {
            Event::General => "General"@,
            Event::Setup => "Setup"@,
            Event::Shader => "Shader"@,
            Event::ParseStyle => "ParseStyle"@,
            Event::ParseTile => "ParseTile"@,
            Event::Render => "Render"@,
            Event::Style => "Style"@,
            Event::Database => "Database"@,
            Event::HttpRequest => "HttpRequest"@,
            Event::Sprite => "Sprite"@,
            Event::Image => "Image"@,
            Event::OpenGL => "OpenGL"@,
            Event::JNI => "JNI"@,
            Event::Android => "Android"@,
            Event::Crash => "Crash"@,
            Event::Glyph => "Glyph"@,
            Event::Timing => "Timing"@,
            Event::Other(r) => "Event("@ + decimal_text(r as int) + ")"@,
        }
    }

    /// The event type as it reads in a log line.
    pub fn label(&self) -> (s: String)
        ensures
            s@ == self.spec_label(),
    {
        let name: &str = match self {
            Event::General => "General",
            Event::Setup => "Setup",
            Event::Shader => "Shader",
            Event::ParseStyle => "ParseStyle",
            Event::ParseTile => "ParseTile",
            Event::Render => "Render",
            Event::Style => "Style",
            Event::Database => "Database",
            Event::HttpRequest => "HttpRequest",
            Event::Sprite => "Sprite",
            Event::Image => "Image",
            Event::OpenGL => "OpenGL",
            Event::JNI => "JNI",
            Event::Android => "Android",
            Event::Crash => "Crash",
            Event::Glyph => "Glyph",
            Event::Timing => "Timing",
            Event::Other(r) => {
                let mut s = String::from_str("Event(");
                push_decimal_i64(&mut s, *r as i64);
                s.append(")");
                return s;
            },
        };
        String::from_str(name)
    }
}

/// The level at which a message of the engine is logged.
#[derive(Debug, Clone, Copy, PartialEq, Eq, Structural)]
pub enum LogLevel {
    Debug,
    Info,
    Warn,
    Error,
}

/// A log line: its level and its text.
pub struct LogRecord {
    pub level: LogLevel,
    pub text: String,
}

/// The level at which a message of the given severity is logged: each known
/// severity at its own level, any other at the error level.
pub open spec fn log_level_for(severity: EventSeverity) -> LogLevel {
    match severity {
        EventSeverity::Debug => LogLevel::Debug,
        EventSeverity::Info => LogLevel::Info,
        EventSeverity::Warning => LogLevel::Warn,
        EventSeverity::Error => LogLevel::Error,
        EventSeverity::Other(_) => LogLevel::Error,
    }
}

/// The text of the log line for an engine message:
/// `<event> (code=<code>) <message>`, and for a severity that names no known
/// level `<event> (severity=<byte>, code=<code>) <message>`.
pub open spec fn log_text_for(
    severity: EventSeverity,
    event: Event,
    code: int,
    message: Seq<char>,
) -> Seq<char> {
    match severity {
        EventSeverity::Other(r) => event.spec_label() + " (severity="@ + decimal_text(r as int)
            + ", code="@ + decimal_text(code) + ") "@ + message,
        _ => event.spec_label() + " (code="@ + decimal_text(code) + ") "@ + message,
    }
}

/// Turns a message that the engine reports into the line to be logged.
pub fn log_from_cpp(severity: EventSeverity, event: Event, code: i64, message: &str) -> (r:
    LogRecord)
    ensures
        r.level == log_level_for(severity),
        r.text@ == log_text_for(severity, event, code as int, message@),
{
    let mut text = event.label();
    let level = match severity {
        EventSeverity::Debug => LogLevel::Debug,
        EventSeverity::Info => LogLevel::Info,
        EventSeverity::Warning => LogLevel::Warn,
        EventSeverity::Error => LogLevel::Error,
        EventSeverity::Other(repr) => {
            text.append(" (severity=");
            push_decimal_i64(&mut text, repr as i64);
            text.append(", code=");
            push_decimal_i64(&mut text, code);
            text.append(") ");
            text.append(message);
            return LogRecord { level: LogLevel::Error, text };
        },
    };
    text.append(" (code=");
    push_decimal_i64(&mut text, code);
    text.append(") ");
    text.append(message);
    LogRecord { level, text }
}

/// A request that the library makes of the native map engine.
pub enum NativeCall {
    /// Switch the engine's asynchronous logging thread on or off.
    UseLogThread(bool),
    /// Load the map style from the given URL.
    LoadStyle(String),
    /// Set the debug visualization flags.
    SetDebugFlags(MapDebugOptions),
}

/// Enable or disable the internal logging thread.
///
/// By default, logs are generated asynchronously except for Error level messages.
/// In crash scenarios, pending async log entries may be lost.
pub fn set_log_thread_enabled(enable: bool) -> (call: NativeCall)
    ensures
        call == NativeCall::UseLogThread(enable),
{
    NativeCall::UseLogThread(enable)
}

/// A message is logged at the error level exactly when its severity is `Error`
/// or names no known level; only for the latter does the line give the raw
/// severity, and every line carries the event, the code and the message.
pub proof fn log_level_law(severity: EventSeverity, event: Event, code: int, message: Seq<char>)
    ensures
        log_level_for(severity) == LogLevel::Error <==> (severity is Error || severity is Other),
        severity is Other ==> log_text_for(severity, event, code, message) == event.spec_label()
            + " (severity="@ + decimal_text(severity.spec_repr() as int) + ", code="@
            + decimal_text(code) + ") "@ + message,
        !(severity is Other) ==> log_text_for(severity, event, code, message)
            == event.spec_label() + " (code="@ + decimal_text(code) + ") "@ + message,
{
}

/// Combined or other flag values reach the engine unchanged, and each named
/// option is the engine's flag bit for it.
pub proof fn debug_flag_bits_law(b: u32)
    ensures
        MapDebugOptions::Flags(b).spec_bits() == b,
        MapDebugOptions::NoDebug.spec_bits() == 0,
        MapDebugOptions::TileBorders.spec_bits() == 0b0000_0010,
        MapDebugOptions::ParseStatus.spec_bits() == 0b0000_0100,
        MapDebugOptions::Timestamps.spec_bits() == 0b0000_1000,
        MapDebugOptions::Collision.spec_bits() == 0b0001_0000,
        MapDebugOptions::Overdraw.spec_bits() == 0b0010_0000,
        MapDebugOptions::StencilClip.spec_bits() == 0b0100_0000,
        MapDebugOptions::DepthBuffer.spec_bits() == 0b1000_0000,
{
}

/// The engine's severity bytes: 0 is Debug, 1 Info, 2 Warning, 3 Error; distinct
/// known severities have distinct bytes.
pub proof fn severity_bytes_law(a: EventSeverity, b: EventSeverity)
    ensures
        EventSeverity::Debug.spec_repr() == 0,
        EventSeverity::Info.spec_repr() == 1,
        EventSeverity::Warning.spec_repr() == 2,
        EventSeverity::Error.spec_repr() == 3,
        !(a is Other) && !(b is Other) && a.spec_repr() == b.spec_repr() ==> a == b,
{
}

/// The engine's event bytes, in the order of its event enum: 0 General,
/// 1 Setup, 2 Shader, 3 ParseStyle, 4 ParseTile, 5 Render, 6 Style, 7 Database,
/// 8 HttpRequest, 9 Sprite, 10 Image, 11 OpenGL, 12 JNI, 13 Android, 14 Crash,
/// 15 Glyph, 16 Timing; distinct known events have distinct bytes, so the event
/// that `Event::from_repr` gives for such a byte is the one listed.
pub proof fn event_bytes_law(a: Event, b: Event)
    ensures
        Event::General.spec_repr() == 0,
        Event::Setup.spec_repr() == 1,
        Event::Shader.spec_repr() == 2,
        Event::ParseStyle.spec_repr() == 3,
        Event::ParseTile.spec_repr() == 4,
        Event::Render.spec_repr() == 5,
        Event::Style.spec_repr() == 6,
        Event::Database.spec_repr() == 7,
        Event::HttpRequest.spec_repr() == 8,
        Event::Sprite.spec_repr() == 9,
        Event::Image.spec_repr() == 10,
        Event::OpenGL.spec_repr() == 11,
        Event::JNI.spec_repr() == 12,
        Event::Android.spec_repr() == 13,
        Event::Crash.spec_repr() == 14,
        Event::Glyph.spec_repr() == 15,
        Event::Timing.spec_repr() == 16,
        !(a is Other) && !(b is Other) && a.spec_repr() == b.spec_repr() ==> a == b,
{
}

/// Each known event reads in a log line as its own name; any other byte reads as
/// `Event(<byte>)`.
pub proof fn event_label_law(r: u8)
    ensures
        Event::General.spec_label() == "General"@,
        Event::Setup.spec_label() == "Setup"@,
        Event::Shader.spec_label() == "Shader"@,
        Event::ParseStyle.spec_label() == "ParseStyle"@,
        Event::ParseTile.spec_label() == "ParseTile"@,
        Event::Render.spec_label() == "Render"@,
        Event::Style.spec_label() == "Style"@,
        Event::Database.spec_label() == "Database"@,
        Event::HttpRequest.spec_label() == "HttpRequest"@,
        Event::Sprite.spec_label() == "Sprite"@,
        Event::Image.spec_label() == "Image"@,
        Event::OpenGL.spec_label() == "OpenGL"@,
        Event::JNI.spec_label() == "JNI"@,
        Event::Android.spec_label() == "Android"@,
        Event::Crash.spec_label() == "Crash"@,
        Event::Glyph.spec_label() == "Glyph"@,
        Event::Timing.spec_label() == "Timing"@,
        Event::Other(r).spec_label() == "Event("@ + decimal_text(r as int) + ")"@,
{
}

/// Each known severity is logged at its own level: Debug at debug, Info at info,
/// Warning at warn and Error at error; any other byte at error.
pub proof fn severity_level_law(r: u8)
    ensures
        log_level_for(EventSeverity::Debug) == LogLevel::Debug,
        log_level_for(EventSeverity::Info) == LogLevel::Info,
        log_level_for(EventSeverity::Warning) == LogLevel::Warn,
        log_level_for(EventSeverity::Error) == LogLevel::Error,
        log_level_for(EventSeverity::Other(r)) == LogLevel::Error,
{
}

} // verus!
