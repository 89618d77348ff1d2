use vstd::prelude::*;
use crate::event_loop::EventsLoop;
use crate::monitor::{factor_max, without_output, MonitorId, MonitorList};
use crate::store::{change_matching, has_surface, Change, WindowRecord};
use crate::types::{LogicalPosition, LogicalSize, MouseCursor, RawWindowParts, WindowAttributes, WindowId};

verus! {

/// The width a window gets when the attributes name no size.
pub const DEFAULT_WIDTH: u32 = 800;

/// The height a window gets when the attributes name no size.
pub const DEFAULT_HEIGHT: u32 = 600;

/// The oldest surface protocol version that carries a buffer scale.
pub const SCALE_AWARE_VERSION: u32 = 3;

/// How the native side sets up a new window's decoration frame.
#[derive(Clone, Copy, Debug, PartialEq, Eq, Structural)]
pub struct FrameSetup {
    pub width: u32,
    pub height: u32,
    /// The output to make the window fullscreen on.
    pub fullscreen: Option<u64>,
    /// Whether to maximize the window; never together with `fullscreen`.
    pub maximized: bool,
    pub resizable: bool,
    pub decorations: bool,
    pub min_size: Option<LogicalSize>,
    pub max_size: Option<LogicalSize>,
}

/// The size a window is created with.
pub open spec fn initial_size(a: WindowAttributes) -> (u32, u32) {
    match a.dimensions {
        Some(sz) => (sz.width, sz.height),
        None => (DEFAULT_WIDTH, DEFAULT_HEIGHT),
    }
}

/// The record of a window created by `Window::new`.
pub open spec fn fresh_record(surface: u64, size: (u32, u32)) -> WindowRecord {
    WindowRecord {
        surface,
        newsize: None,
        size,
        need_refresh: false,
        need_frame_refresh: true,
        closed: false,
        kill_switch: Some(false),
        frame_alive: true,
        current_dpi: 1,
        new_dpi: None,
    }
}

/// The record of a window made from raw parts: no frame and no kill switch.
pub open spec fn raw_record(rwp: RawWindowParts) -> WindowRecord {
    WindowRecord {
        surface: rwp.surface,
        newsize: None,
        size: (rwp.width, rwp.height),
        need_refresh: false,
        need_frame_refresh: false,
        closed: false,
        kill_switch: None,
        frame_alive: false,
        current_dpi: 1,
        new_dpi: None,
    }
}

/// A change to a window's decoration frame, carried out by the native side.
#[derive(Clone, Debug, PartialEq, Eq)]
pub enum FrameRequest {
    SetTitle(String),
    Resize { width: u32, height: u32 },
    SetMinSize(Option<LogicalSize>),
    SetMaxSize(Option<LogicalSize>),
    SetResizable(bool),
    SetDecorate(bool),
    Maximize,
    Unmaximize,
    /// Make the window fullscreen on the given output.
    Fullscreen(u64),
    UnsetFullscreen,
}

/// The handle-side state of a window: its surface, the monitors it overlaps, and whether
/// the loop tears it down when the handle goes.
pub struct Window {
    pub surface: u64,
    pub monitors: MonitorList,
    pub has_kill_switch: bool,
}

impl Window {
    /// Whether the window has a decoration frame: windows made by `Window::new` have
    /// one (and a kill switch), windows made from raw parts have neither.
    pub open spec fn has_frame(&self) -> bool {
        self.has_kill_switch
    }

    /// Creates the state of a window on the new surface `surface` and registers its
    /// record with the loop. Returns the window and how its frame is to be set up.
    pub fn new(evlp: &mut EventsLoop, surface: u64, attributes: &WindowAttributes) -> (r: (Window, FrameSetup))
        requires
            !has_surface(old(evlp).store@, surface),
        ensures
            final(evlp).store@ == old(evlp).store@.push(fresh_record(surface, initial_size(*attributes))),
            old(evlp).store.wf() ==> final(evlp).store.wf(),
            final(evlp).sink@ == old(evlp).sink@,
            final(evlp).outputs@ == old(evlp).outputs@,
            final(evlp).cleanup_needed == old(evlp).cleanup_needed,
            r.0.surface == surface,
            r.0.monitors@ == Seq::<MonitorId>::empty(),
            r.0.has_kill_switch,
            r.1 == (FrameSetup {
                width: initial_size(*attributes).0,
                height: initial_size(*attributes).1,
                fullscreen: match attributes.fullscreen {
                    Some(m) => Some(m.output),
                    None => None,
                },
                maximized: attributes.fullscreen is None && attributes.maximized,
                resizable: attributes.resizable,
                decorations: attributes.decorations,
                min_size: attributes.min_dimensions,
                max_size: attributes.max_dimensions,
            }),
    {
        let (width, height) = match attributes.dimensions {
            Some(sz) => (sz.width, sz.height),
            None => (DEFAULT_WIDTH, DEFAULT_HEIGHT),
        };
        let (fullscreen, maximized) = match attributes.fullscreen {
            Some(m) => (Some(m.output), false),
            None => (None, attributes.maximized),
        };
        let setup = FrameSetup {
            width,
            height,
            fullscreen,
            maximized,
            resizable: attributes.resizable,
            decorations: attributes.decorations,
            min_size: attributes.min_dimensions,
            max_size: attributes.max_dimensions,
        };
        evlp.store.register(WindowRecord {
            surface,
            newsize: None,
            size: (width, height),
            need_refresh: false,
            need_frame_refresh: true,
            closed: false,
            kill_switch: Some(false),
            frame_alive: true,
            current_dpi: 1,
            new_dpi: None,
        });
        (Window { surface, monitors: MonitorList::new(), has_kill_switch: true }, setup)
    }

    /// Creates the state of a window made outside the library and registers its record.
    /// Such a window has no frame, and the loop never tears it down.
    pub fn new_from_raw_parts(evlp: &mut EventsLoop, rwp: &RawWindowParts) -> (r: Window)
        requires
            !has_surface(old(evlp).store@, rwp.surface),
        ensures
            final(evlp).store@ == old(evlp).store@.push(raw_record(*rwp)),
            old(evlp).store.wf() ==> final(evlp).store.wf(),
            final(evlp).sink@ == old(evlp).sink@,
            final(evlp).outputs@ == old(evlp).outputs@,
            final(evlp).cleanup_needed == old(evlp).cleanup_needed,
            r.surface == rwp.surface,
            r.monitors@ == Seq::<MonitorId>::empty(),
            !r.has_kill_switch,
    {
        evlp.store.register(WindowRecord {
            surface: rwp.surface,
            newsize: None,
            size: (rwp.width, rwp.height),
            need_refresh: false,
            need_frame_refresh: false,
            closed: false,
            kill_switch: None,
            frame_alive: false,
            current_dpi: 1,
            new_dpi: None,
        });
        Window { surface: rwp.surface, monitors: MonitorList::new(), has_kill_switch: false }
    }

    pub fn id(&self) -> (r: WindowId)
        ensures
            r == (WindowId { surface: self.surface }),
    {
        WindowId { surface: self.surface }
    }

    /// The surface and current size of the window.
    pub fn get_raw_parts(&self, evlp: &EventsLoop) -> (r: RawWindowParts)
        requires
            evlp.store.wf(),
            has_surface(evlp.store@, self.surface),
        ensures
            r.surface == self.surface,
            exists|k: int| 0 <= k < evlp.store@.len() && (#[trigger] evlp.store@[k]).surface == self.surface
                && evlp.store@[k].size == (r.width, r.height),
    {
        let size = evlp.store.inner_size(self.surface);
        match size {
            Some((width, height)) => RawWindowParts { surface: self.surface, width, height },
            None => RawWindowParts { surface: self.surface, width: 0, height: 0 },
        }
    }

    /// Showing a window has no equivalent here: nothing is done.
    pub fn show(&self) {
    }

    /// Hiding a window has no equivalent here: nothing is done.
    pub fn hide_window(&self) {
    }

    /// The compositor places windows and does not tell where: always `None`.
    pub fn get_position(&self) -> (r: Option<LogicalPosition>)
        ensures
            r is None,
    {
        None
    }

    /// The compositor places windows and does not tell where: always `None`.
    pub fn get_inner_position(&self) -> (r: Option<LogicalPosition>)
        ensures
            r is None,
    {
        None
    }

    /// The compositor places windows: nothing is done.
    pub fn set_position(&self, _pos: LogicalPosition) {
    }

    /// The size of the window's content, `None` once its record is gone.
    pub fn get_inner_size(&self, evlp: &EventsLoop) -> (r: Option<LogicalSize>)
        requires
            evlp.store.wf(),
        ensures
            r is None <==> !has_surface(evlp.store@, self.surface),
            r matches Some(sz) ==> exists|k: int| 0 <= k < evlp.store@.len()
                && (#[trigger] evlp.store@[k]).surface == self.surface
                && evlp.store@[k].size == (sz.width, sz.height),
    {
        match evlp.store.inner_size(self.surface) {
            Some((width, height)) => Some(LogicalSize { width, height }),
            None => None,
        }
    }

    /// The size of the window with its decorations; the frame draws them inside the
    /// surface, so it is the inner size.
    pub fn get_outer_size(&self, evlp: &EventsLoop) -> (r: Option<LogicalSize>)
        requires
            evlp.store.wf(),
        ensures
            r is None <==> !has_surface(evlp.store@, self.surface),
            r matches Some(sz) ==> exists|k: int| 0 <= k < evlp.store@.len()
                && (#[trigger] evlp.store@[k]).surface == self.surface
                && evlp.store@[k].size == (sz.width, sz.height),
    {
        self.get_inner_size(evlp)
    }

    /// Records the size that the application gave the window and returns the resize of
    /// its frame; the content is the application's to redraw.
    pub fn set_inner_size(&self, evlp: &mut EventsLoop, size: LogicalSize) -> (r: FrameRequest)
        requires
            self.has_frame(),
        ensures
            r == (FrameRequest::Resize { width: size.width, height: size.height }),
            final(evlp).store@ == change_matching(old(evlp).store@, self.surface, Change::Resize((size.width, size.height))),
            old(evlp).store.wf() ==> final(evlp).store.wf(),
            final(evlp).sink@ == old(evlp).sink@,
            final(evlp).outputs@ == old(evlp).outputs@,
            final(evlp).cleanup_needed == old(evlp).cleanup_needed,
    {
        evlp.store.apply(self.surface, Change::Resize((size.width, size.height)));
        FrameRequest::Resize { width: size.width, height: size.height }
    }

    /// The window's scale factor: the largest of the monitors it overlaps, 1 on none.
    pub fn hidpi_factor(&self) -> (r: i32)
        ensures
            r as int == factor_max(self.monitors@),
    {
        self.monitors.compute_hidpi_factor()
    }

    /// Cursor shapes have no equivalent here: nothing is done.
    pub fn set_cursor(&self, _cursor: MouseCursor) {
    }

    /// Hiding the cursor has no equivalent here: nothing is done.
    pub fn hide_cursor(&self, _hide: bool) {
    }

    /// Cursor grabbing is not available here: always fails, with the reason.
    pub fn grab_cursor(&self, _grab: bool) -> (r: Result<(), String>)
        ensures
            r matches Err(msg) && msg@ == "Cursor grabbing is not yet possible on Wayland."@,
    {
        Err(String::from_str("Cursor grabbing is not yet possible on Wayland."))
    }

    /// Moving the cursor is not available here: always fails, with the reason.
    pub fn set_cursor_position(&self, _pos: LogicalPosition) -> (r: Result<(), String>)
        ensures
            r matches Err(msg) && msg@ == "Setting the cursor position is not yet possible on Wayland."@,
    {
        Err(String::from_str("Setting the cursor position is not yet possible on Wayland."))
    }

    /// The monitor the window entered last.
    pub fn get_current_monitor(&self) -> (r: MonitorId)
        requires
            self.monitors@.len() > 0,
        ensures
            r == self.monitors@.last(),
    {
        self.monitors.monitors[self.monitors.monitors.len() - 1]
    }

    /// The surface entered `monitor`. When the window's scale factor grew and the
    /// surface's protocol version carries a buffer scale, the new factor is recorded for
    /// the next drain pass and returned, to be set as the buffer scale.
    pub fn surface_enter(&mut self, evlp: &mut EventsLoop, monitor: MonitorId, version: u32) -> (r: Option<i32>)
        ensures
            final(self).monitors@ == old(self).monitors@.push(monitor),
            final(self).surface == old(self).surface,
            final(self).has_kill_switch == old(self).has_kill_switch,
            r == (if version >= SCALE_AWARE_VERSION && monitor.hidpi_factor > factor_max(old(self).monitors@) {
                Some(monitor.hidpi_factor)
            } else {
                None
            }),
            final(evlp).store@ == (match r {
                Some(d) => change_matching(old(evlp).store@, old(self).surface, Change::Dpi(d)),
                None => old(evlp).store@,
            }),
            old(evlp).store.wf() ==> final(evlp).store.wf(),
            final(evlp).sink@ == old(evlp).sink@,
            final(evlp).outputs@ == old(evlp).outputs@,
            final(evlp).cleanup_needed == old(evlp).cleanup_needed,
    {
        let dpi_change = self.monitors.add_output(monitor);
        match dpi_change {
            Some(dpi) => {
                if version >= SCALE_AWARE_VERSION {
                    evlp.store.dpi_change(self.surface, dpi);
                    Some(dpi)
                } else {
                    None
                }
            },
            None => None,
        }
    }

    /// The surface left the output `output`. When the window's scale factor changed and
    /// the surface's protocol version carries a buffer scale, the new factor is recorded
    /// for the next drain pass and returned, to be set as the buffer scale.
    pub fn surface_leave(&mut self, evlp: &mut EventsLoop, output: u64, version: u32) -> (r: Option<i32>)
        ensures
            final(self).monitors@ == without_output(old(self).monitors@, output),
            final(self).surface == old(self).surface,
            final(self).has_kill_switch == old(self).has_kill_switch,
            r == (if version >= SCALE_AWARE_VERSION && factor_max(final(self).monitors@) != factor_max(old(self).monitors@) {
                Some(factor_max(final(self).monitors@) as i32)
            } else {
                None
            }),
            final(evlp).store@ == (match r {
                Some(d) => change_matching(old(evlp).store@, old(self).surface, Change::Dpi(d)),
                None => old(evlp).store@,
            }),
            old(evlp).store.wf() ==> final(evlp).store.wf(),
            final(evlp).sink@ == old(evlp).sink@,
            final(evlp).outputs@ == old(evlp).outputs@,
            final(evlp).cleanup_needed == old(evlp).cleanup_needed,
    {
        let dpi_change = self.monitors.del_output(output);
        match dpi_change {
            Some(dpi) => {
                if version >= SCALE_AWARE_VERSION {
                    evlp.store.dpi_change(self.surface, dpi);
                    Some(dpi)
                } else {
                    None
                }
            },
            None => None,
        }
    }

    /// The handle goes: a window with a kill switch asks the loop to tear it down; one
    /// made from raw parts is left alone.
    pub fn teardown(&self, evlp: &mut EventsLoop)
        ensures
            self.has_kill_switch ==> final(evlp).store@ == change_matching(old(evlp).store@, self.surface, Change::Kill)
                && final(evlp).cleanup_needed,
            !self.has_kill_switch ==> *final(evlp) == *old(evlp),
            old(evlp).store.wf() ==> final(evlp).store.wf(),
            final(evlp).sink@ == old(evlp).sink@,
            final(evlp).outputs@ == old(evlp).outputs@,
    {
        if self.has_kill_switch {
            evlp.kill_window(self.surface);
        }
    }

    /// Sets the title shown in the title bar.
    pub fn set_title(&self, title: &str) -> (r: FrameRequest)
        requires
            self.has_frame(),
        ensures
            r matches FrameRequest::SetTitle(t) && t@ == title@,
    {
        FrameRequest::SetTitle(title.to_string())
    }

    /// Sets the smallest size the user may give the window; `None` for no limit.
    pub fn set_min_dimensions(&self, dimensions: Option<LogicalSize>) -> (r: FrameRequest)
        requires
            self.has_frame(),
        ensures
            r == FrameRequest::SetMinSize(dimensions),
    {
        FrameRequest::SetMinSize(dimensions)
    }

    /// Sets the largest size the user may give the window; `None` for no limit.
    pub fn set_max_dimensions(&self, dimensions: Option<LogicalSize>) -> (r: FrameRequest)
        requires
            self.has_frame(),
        ensures
            r == FrameRequest::SetMaxSize(dimensions),
    {
        FrameRequest::SetMaxSize(dimensions)
    }

    pub fn set_resizable(&self, resizable: bool) -> (r: FrameRequest)
        requires
            self.has_frame(),
        ensures
            r == FrameRequest::SetResizable(resizable),
    {
        FrameRequest::SetResizable(resizable)
    }

    /// Turns the decorations on or off; the frame is redrawn on the next drain pass.
    pub fn set_decorations(&self, evlp: &mut EventsLoop, decorate: bool) -> (r: FrameRequest)
        requires
            self.has_frame(),
        ensures
            r == FrameRequest::SetDecorate(decorate),
            final(evlp).store@ == change_matching(old(evlp).store@, self.surface, Change::Refresh),
            old(evlp).store.wf() ==> final(evlp).store.wf(),
            final(evlp).sink@ == old(evlp).sink@,
            final(evlp).outputs@ == old(evlp).outputs@,
            final(evlp).cleanup_needed == old(evlp).cleanup_needed,
    {
        evlp.store.apply(self.surface, Change::Refresh);
        FrameRequest::SetDecorate(decorate)
    }

    pub fn set_maximized(&self, maximized: bool) -> (r: FrameRequest)
        requires
            self.has_frame(),
        ensures
            r == (if maximized { FrameRequest::Maximize } else { FrameRequest::Unmaximize }),
    {
        if maximized {
            FrameRequest::Maximize
        } else {
            FrameRequest::Unmaximize
        }
    }

    /// Makes the window fullscreen on `monitor`, or leaves fullscreen on `None`.
    pub fn set_fullscreen(&self, monitor: Option<MonitorId>) -> (r: FrameRequest)
        requires
            self.has_frame(),
        ensures
            r == (match monitor {
                Some(m) => FrameRequest::Fullscreen(m.output),
                None => FrameRequest::UnsetFullscreen,
            }),
    {
        match monitor {
            Some(m) => FrameRequest::Fullscreen(m.output),
            None => FrameRequest::UnsetFullscreen,
        }
    }

    /// The monitors available on the system.
    pub fn get_available_monitors(&self, evlp: &EventsLoop) -> (r: Vec<MonitorId>)
        ensures
            r@ == evlp.outputs@,
    {
        evlp.get_available_monitors()
    }

    /// The primary monitor of the system.
    pub fn get_primary_monitor(&self, evlp: &EventsLoop) -> (r: MonitorId)
        requires
            evlp.outputs@.len() > 0,
        ensures
            r == evlp.outputs@[0],
    {
        evlp.get_primary_monitor()
    }
}

} // verus!
