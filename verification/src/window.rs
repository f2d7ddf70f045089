//! What the shell decides about its own window: the description the front
//! end is given when it starts, and which way a maximize toggle goes.
//!
//! The host reads the window's state and carries the commands out. A reading
//! that the host could not take comes in as `None`.

use vstd::prelude::*;

verus! {

/// What the front end is told about the window when it starts.
#[derive(Debug, PartialEq, Eq)]
pub struct WindowInfo<P> {
    /// Width of the window's content area, in physical pixels.
    pub width: u32,
    /// Height of the window's content area, in physical pixels.
    pub height: u32,
    pub minimizable: bool,
    pub maximizable: bool,
    pub is_maximized: bool,
    /// The operating system, as the host names it.
    pub platform: P,
}

/// The description of a window of the given size (width, then height) and
/// state. A size that is not known counts as zero by zero, a state that is
/// not known as not maximized. The window can always be minimized and
/// maximized.
pub open spec fn window_info_of<P>(
    size: Option<(u32, u32)>,
    is_maximized: Option<bool>,
    platform: P,
) -> WindowInfo<P> {
    let (width, height) = match size {
        Some(dimensions) => dimensions,
        None => (0u32, 0u32),
    };
    WindowInfo {
        width,
        height,
        minimizable: true,
        maximizable: true,
        is_maximized: is_maximized == Some(true),
        platform,
    }
}

/// Describes the window to the front end.
pub fn window_init<P>(size: Option<(u32, u32)>, is_maximized: Option<bool>, platform: P) -> (info:
    WindowInfo<P>)
    ensures
        info == window_info_of(size, is_maximized, platform),
{
    let (width, height) = match size {
        Some(dimensions) => dimensions,
        None => (0, 0),
    };
    let is_maximized = match is_maximized {
        Some(state) => state,
        None => false,
    };
    WindowInfo { width, height, minimizable: true, maximizable: true, is_maximized, platform }
}

/// What a maximize toggle asks the window to do.
#[derive(Clone, Copy, Debug, PartialEq, Eq, Structural)]
pub enum WindowAction {
    Maximize,
    Unmaximize,
}

/// Which way a maximize toggle goes: a window known to be maximized is
/// restored, any other is maximized.
pub fn window_maximize_toggle(is_maximized: Option<bool>) -> (action: WindowAction)
    ensures
        action is Unmaximize <==> is_maximized == Some(true),
{
    match is_maximized {
        Some(true) => WindowAction::Unmaximize,
        _ => WindowAction::Maximize,
    }
}

} // verus!
