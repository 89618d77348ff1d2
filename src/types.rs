use vstd::prelude::*;
use crate::monitor::MonitorId;

verus! {

/// Identifier of a window, unique among the live windows of one event loop. It is the
/// identity of the window's native surface.
#[derive(Clone, Copy, Debug, PartialEq, Eq, PartialOrd, Ord, Hash, Structural)]
pub struct WindowId {
    pub surface: u64,
}

/// Identifier of an input device, virtual or physical.
#[derive(Clone, Copy, Debug, PartialEq, Eq, PartialOrd, Ord, Hash, Structural)]
pub struct DeviceId {
    pub id: u64,
}

/// A size in logical (scale-independent) units.
#[derive(Clone, Copy, Debug, PartialEq, Eq, Hash, Structural)]
pub struct LogicalSize {
    pub width: u32,
    pub height: u32,
}

/// A position in logical (scale-independent) units.
#[derive(Clone, Copy, Debug, PartialEq, Eq, Hash, Structural)]
pub struct LogicalPosition {
    pub x: i32,
    pub y: i32,
}

/// Error that can happen while creating a window.
#[derive(Clone, Debug)]
pub enum CreationError {
    /// A native call failed, with the system's message.
    OsError(String),
    /// Some of the requested attributes cannot be honored by this backend.
    NotSupported,
}

impl CreationError {
    /// The error's message.
    pub fn to_string(&self) -> (r: String)
        ensures
            r@ == (match self {
                CreationError::OsError(text) => text@,
                CreationError::NotSupported => "Some of the requested attributes are not supported"@,
            }),
    {
        match self {
            CreationError::OsError(text) => text.clone(),
            CreationError::NotSupported => String::from_str("Some of the requested attributes are not supported"),
        }
    }
}

/// Describes the appearance of the mouse cursor.
#[derive(Clone, Copy, Debug, PartialEq, Eq, Structural)]
pub enum MouseCursor {
    /// The platform-dependent default cursor.
    Default,
    /// A simple crosshair.
    Crosshair,
    /// A hand (often used to indicate links in web browsers).
    Hand,
    /// Self explanatory.
    Arrow,
    /// Indicates something is to be moved.
    Move,
    /// Indicates text that may be selected or edited.
    Text,
    /// Program busy indicator.
    Wait,
    /// Help indicator (often rendered as a "?").
    Help,
    /// Processing is being done, but the user may still interact with the program.
    Progress,
    /// Cursor showing that something cannot be done.
    NotAllowed,
    ContextMenu,
    Cell,
    VerticalText,
    Alias,
    Copy,
    NoDrop,
    Grab,
    Grabbing,
    AllScroll,
    ZoomIn,
    ZoomOut,
    /// Indicate that some edge is to be moved, here the east one.
    EResize,
    NResize,
    NeResize,
    NwResize,
    SResize,
    SeResize,
    SwResize,
    WResize,
    EwResize,
    NsResize,
    NeswResize,
    NwseResize,
    ColResize,
    RowResize,
}

impl Default for MouseCursor {
    fn default() -> (r: MouseCursor)
        ensures
            r == MouseCursor::Default,
    {
        MouseCursor::Default
    }
}

/// A window icon as raw RGBA pixels, row after row.
#[derive(Clone, Debug)]
pub struct Icon {
    pub rgba: Vec<u8>,
    pub width: u32,
    pub height: u32,
}

/// Attributes to use when creating a window.
#[derive(Clone, Debug)]
pub struct WindowAttributes {
    /// The dimensions of the window; `None` for the backend's default.
    pub dimensions: Option<LogicalSize>,
    /// The minimum dimensions of the window; `None` for none.
    pub min_dimensions: Option<LogicalSize>,
    /// The maximum dimensions of the window; `None` for none.
    pub max_dimensions: Option<LogicalSize>,
    /// Whether the window is resizable.
    pub resizable: bool,
    /// The output the window is made fullscreen on upon creation, if any.
    pub fullscreen: Option<MonitorId>,
    /// The title of the window in the title bar.
    pub title: String,
    /// Whether the window is maximized upon creation.
    pub maximized: bool,
    /// Whether the window is visible upon creation.
    pub visible: bool,
    /// Whether the window's surface is alpha-blended.
    pub transparent: bool,
    /// Whether the window has borders and bars.
    pub decorations: bool,
    /// Whether the window stays on top of other windows.
    pub always_on_top: bool,
    /// The window icon.
    pub window_icon: Option<Icon>,
    /// Whether multitouch is enabled, where the platform offers it.
    pub multitouch: bool,
}

impl Default for WindowAttributes {
    fn default() -> (r: WindowAttributes)
        ensures
            r.dimensions is None,
            r.min_dimensions is None,
            r.max_dimensions is None,
            r.resizable,
            r.fullscreen is None,
            r.title@ == "winit window"@,
            !r.maximized,
            r.visible,
            !r.transparent,
            r.decorations,
            !r.always_on_top,
            r.window_icon is None,
            !r.multitouch,
    {
        WindowAttributes {
            dimensions: None,
            min_dimensions: None,
            max_dimensions: None,
            resizable: true,
            title: String::from_str("winit window"),
            maximized: false,
            fullscreen: None,
            visible: true,
            transparent: false,
            decorations: true,
            always_on_top: false,
            window_icon: None,
            multitouch: false,
        }
    }
}

/// Object that allows you to build windows.
#[derive(Clone, Debug)]
pub struct WindowBuilder {
    /// The attributes to use to create the window.
    pub window: WindowAttributes,
}

impl WindowBuilder {
    /// A builder with the default attributes.
    pub fn new() -> (r: WindowBuilder)
        ensures
            r.window.dimensions is None,
            r.window.min_dimensions is None,
            r.window.max_dimensions is None,
            r.window.resizable,
            r.window.fullscreen is None,
            r.window.title@ == "winit window"@,
            !r.window.maximized,
            r.window.visible,
            !r.window.transparent,
            r.window.decorations,
            !r.window.always_on_top,
            r.window.window_icon is None,
            !r.window.multitouch,
    {
        WindowBuilder { window: WindowAttributes::default() }
    }
}

/// What identifies a window made outside the library: its native surface and its size.
#[derive(Clone, Copy, Debug, PartialEq, Eq, Structural)]
pub struct RawWindowParts {
    pub surface: u64,
    pub width: u32,
    pub height: u32,
}

} // verus!
