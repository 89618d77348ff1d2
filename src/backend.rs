use vstd::prelude::*;

verus! {

/// A family of native display backends.
#[derive(Clone, Copy, Debug, PartialEq, Eq, Structural)]
pub enum Backend {
    X11,
    Wayland,
}

/// Which backends an event loop tries to connect to.
#[derive(Clone, Copy, Debug, PartialEq, Eq, Structural)]
pub enum BackendChoice {
    /// Only this backend; failing to reach it is fatal.
    Only(Backend),
    /// Wayland first, then X11 when Wayland cannot be reached.
    WaylandThenX11,
}

/// Decides the backends to try from the value of the variable that selects the backend
/// family, if it is set. The legal values are `x11` and `wayland`; any other value is a
/// configuration error, reported with a message.
pub fn select_backend(value: Option<String>) -> (r: Result<BackendChoice, String>)
    ensures
        match value {
            None => r == Ok::<BackendChoice, String>(BackendChoice::WaylandThenX11),
            Some(v) => if v@ == "x11"@ {
                r == Ok::<BackendChoice, String>(BackendChoice::Only(Backend::X11))
            } else if v@ == "wayland"@ {
                r == Ok::<BackendChoice, String>(BackendChoice::Only(Backend::Wayland))
            } else {
                r is Err
            },
        },
{
    match value {
        None => Ok(BackendChoice::WaylandThenX11),
        Some(v) => {
            let x11 = String::from_str("x11");
            let wayland = String::from_str("wayland");
            if v == x11 {
                Ok(BackendChoice::Only(Backend::X11))
            } else if v == wayland {
                Ok(BackendChoice::Only(Backend::Wayland))
            } else {
                Err(String::from_str("Unknown backend; the legal values are `x11` and `wayland`"))
            }
        },
    }
}

} // verus!
