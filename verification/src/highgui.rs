//! High-level GUI surface: window, trackbar, mouse and Qt-font entry points.
//!
//! The windowing work itself — creating windows, running the event loop,
//! drawing — is done by the native library; this module holds what the
//! binding layer itself owes the caller: the numeric flag constants mirrored
//! bit-exactly from the native headers, the typed window-flag catalogs with
//! their proved value maps, and the wrapper that owns a Qt font handle.

use vstd::prelude::*;

verus! {

/// indicates that ALT Key is pressed.
pub const EVENT_FLAG_ALTKEY: i32 = 32;

/// indicates that CTRL Key is pressed.
pub const EVENT_FLAG_CTRLKEY: i32 = 8;

/// indicates that the left mouse button is down.
pub const EVENT_FLAG_LBUTTON: i32 = 1;

/// indicates that the middle mouse button is down.
pub const EVENT_FLAG_MBUTTON: i32 = 4;

/// indicates that the right mouse button is down.
pub const EVENT_FLAG_RBUTTON: i32 = 2;

/// indicates that SHIFT Key is pressed.
pub const EVENT_FLAG_SHIFTKEY: i32 = 16;

/// indicates that left mouse button is double clicked.
pub const EVENT_LBUTTONDBLCLK: i32 = 7;

/// indicates that the left mouse button is pressed.
pub const EVENT_LBUTTONDOWN: i32 = 1;

/// indicates that left mouse button is released.
pub const EVENT_LBUTTONUP: i32 = 4;

/// indicates that middle mouse button is double clicked.
pub const EVENT_MBUTTONDBLCLK: i32 = 9;

/// indicates that the middle mouse button is pressed.
pub const EVENT_MBUTTONDOWN: i32 = 3;

/// indicates that middle mouse button is released.
pub const EVENT_MBUTTONUP: i32 = 6;

/// positive and negative values mean right and left scrolling, respectively.
pub const EVENT_MOUSEHWHEEL: i32 = 11;

/// indicates that the mouse pointer has moved over the window.
pub const EVENT_MOUSEMOVE: i32 = 0;

/// positive and negative values mean forward and backward scrolling, respectively.
pub const EVENT_MOUSEWHEEL: i32 = 10;

/// indicates that right mouse button is double clicked.
pub const EVENT_RBUTTONDBLCLK: i32 = 8;

/// indicates that the right mouse button is pressed.
pub const EVENT_RBUTTONDOWN: i32 = 2;

/// indicates that right mouse button is released.
pub const EVENT_RBUTTONUP: i32 = 5;

/// Checkbox button.
pub const QT_CHECKBOX: i32 = 1;

/// Weight of 87
pub const QT_FONT_BLACK: i32 = 87;

/// Weight of 75
pub const QT_FONT_BOLD: i32 = 75;

/// Weight of 63
pub const QT_FONT_DEMIBOLD: i32 = 63;

/// Weight of 25
pub const QT_FONT_LIGHT: i32 = 25;

/// Weight of 50
pub const QT_FONT_NORMAL: i32 = 50;

/// Button should create a new buttonbar
pub const QT_NEW_BUTTONBAR: i32 = 1024;

/// Push button.
pub const QT_PUSH_BUTTON: i32 = 0;

/// Radiobox button.
pub const QT_RADIOBOX: i32 = 2;

/// Italic font.
pub const QT_STYLE_ITALIC: i32 = 1;

/// Normal font.
pub const QT_STYLE_NORMAL: i32 = 0;

/// Oblique font.
pub const QT_STYLE_OBLIQUE: i32 = 2;

/// the user cannot resize the window, the size is constrainted by the image displayed.
pub const WINDOW_AUTOSIZE: i32 = 0x00000001;

/// the image expends as much as it can (no ratio constraint).
pub const WINDOW_FREERATIO: i32 = 0x00000100;

/// change the window to fullscreen.
pub const WINDOW_FULLSCREEN: i32 = 1;

/// status bar and tool bar
pub const WINDOW_GUI_EXPANDED: i32 = 0x00000000;

/// old fashious way
pub const WINDOW_GUI_NORMAL: i32 = 0x00000010;

/// the ratio of the image is respected.
pub const WINDOW_KEEPRATIO: i32 = 0x00000000;

/// the user can resize the window (no constraint) / also use to switch a fullscreen window to a normal size.
pub const WINDOW_NORMAL: i32 = 0x00000000;

/// window with opengl support.
pub const WINDOW_OPENGL: i32 = 0x00001000;

/// window's aspect ration (can be set to WINDOW_FREERATIO or WINDOW_KEEPRATIO).
pub const WND_PROP_ASPECT_RATIO: i32 = 2;

/// autosize property      (can be WINDOW_NORMAL or WINDOW_AUTOSIZE).
pub const WND_PROP_AUTOSIZE: i32 = 1;

/// fullscreen property    (can be WINDOW_NORMAL or WINDOW_FULLSCREEN).
pub const WND_PROP_FULLSCREEN: i32 = 0;

/// opengl support.
pub const WND_PROP_OPENGL: i32 = 3;

/// checks whether the window exists and is visible
pub const WND_PROP_VISIBLE: i32 = 4;

/// Flags for creating a named window. Each variant carries a distinct native
/// value, given by [`window_flag_value`]; native names that alias one of
/// these values (fullscreen, keep-ratio, expanded GUI) are reached through
/// the plain constants above.
#[allow(non_camel_case_types)]
#[derive(Copy, Clone, Debug, PartialEq, Eq, Structural)]
pub enum WindowFlags {
    /// the user can resize the window (no constraint) / also use to switch a fullscreen window to a normal size.
    WINDOW_NORMAL,
    /// the user cannot resize the window, the size is constrainted by the image displayed.
    WINDOW_AUTOSIZE,
    /// window with opengl support.
    WINDOW_OPENGL,
    /// the image expends as much as it can (no ratio constraint).
    WINDOW_FREERATIO,
    /// old fashious way
    WINDOW_GUI_NORMAL,
}

/// The native header value of each window flag.
pub open spec fn spec_window_flag_value(f: WindowFlags) -> i32 {
    match f {
        WindowFlags::WINDOW_NORMAL => WINDOW_NORMAL,
        WindowFlags::WINDOW_AUTOSIZE => WINDOW_AUTOSIZE,
        WindowFlags::WINDOW_OPENGL => WINDOW_OPENGL,
        WindowFlags::WINDOW_FREERATIO => WINDOW_FREERATIO,
        WindowFlags::WINDOW_GUI_NORMAL => WINDOW_GUI_NORMAL,
    }
}

/// The numeric value a window flag takes when it crosses the boundary,
/// bit-exact with the native header.
pub fn window_flag_value(f: WindowFlags) -> (r: i32)
    ensures
        r == spec_window_flag_value(f),
{
    match f {
        WindowFlags::WINDOW_NORMAL => WINDOW_NORMAL,
        WindowFlags::WINDOW_AUTOSIZE => WINDOW_AUTOSIZE,
        WindowFlags::WINDOW_OPENGL => WINDOW_OPENGL,
        WindowFlags::WINDOW_FREERATIO => WINDOW_FREERATIO,
        WindowFlags::WINDOW_GUI_NORMAL => WINDOW_GUI_NORMAL,
    }
}

/// Reads a native window-flag value back into the typed catalog: exactly the
/// values of the five variants are accepted.
pub fn window_flag_from_value(v: i32) -> (r: Option<WindowFlags>)
    ensures
        r matches Some(f) ==> spec_window_flag_value(f) == v,
        r is None ==> forall|f: WindowFlags| spec_window_flag_value(f) != v,
{
    if v == WINDOW_NORMAL {
        Some(WindowFlags::WINDOW_NORMAL)
    } else if v == WINDOW_AUTOSIZE {
        Some(WindowFlags::WINDOW_AUTOSIZE)
    } else if v == WINDOW_OPENGL {
        Some(WindowFlags::WINDOW_OPENGL)
    } else if v == WINDOW_FREERATIO {
        Some(WindowFlags::WINDOW_FREERATIO)
    } else if v == WINDOW_GUI_NORMAL {
        Some(WindowFlags::WINDOW_GUI_NORMAL)
    } else {
        None
    }
}

/// Every window flag survives the trip through its numeric value: reading
/// the value back yields the flag it came from.
pub proof fn lemma_window_flag_round_trip(f: WindowFlags)
    ensures
        forall|g: WindowFlags|
            spec_window_flag_value(g) == spec_window_flag_value(f) ==> g == f,
{
}

/// Flags naming a window property to get or set. Each variant carries a
/// distinct native value, given by [`window_property_value`].
#[allow(non_camel_case_types)]
#[derive(Copy, Clone, Debug, PartialEq, Eq, Structural)]
pub enum WindowPropertyFlags {
    /// fullscreen property    (can be WINDOW_NORMAL or WINDOW_FULLSCREEN).
    WND_PROP_FULLSCREEN,
    /// autosize property      (can be WINDOW_NORMAL or WINDOW_AUTOSIZE).
    WND_PROP_AUTOSIZE,
    /// window's aspect ration (can be set to WINDOW_FREERATIO or WINDOW_KEEPRATIO).
    WND_PROP_ASPECT_RATIO,
    /// opengl support.
    WND_PROP_OPENGL,
    /// checks whether the window exists and is visible
    WND_PROP_VISIBLE,
}

/// The native header value of each window property flag.
pub open spec fn spec_window_property_value(f: WindowPropertyFlags) -> i32 {
    match f {
        WindowPropertyFlags::WND_PROP_FULLSCREEN => WND_PROP_FULLSCREEN,
        WindowPropertyFlags::WND_PROP_AUTOSIZE => WND_PROP_AUTOSIZE,
        WindowPropertyFlags::WND_PROP_ASPECT_RATIO => WND_PROP_ASPECT_RATIO,
        WindowPropertyFlags::WND_PROP_OPENGL => WND_PROP_OPENGL,
        WindowPropertyFlags::WND_PROP_VISIBLE => WND_PROP_VISIBLE,
    }
}

/// The numeric value a window property flag takes when it crosses the
/// boundary, bit-exact with the native header.
pub fn window_property_value(f: WindowPropertyFlags) -> (r: i32)
    ensures
        r == spec_window_property_value(f),
{
    match f {
        WindowPropertyFlags::WND_PROP_FULLSCREEN => WND_PROP_FULLSCREEN,
        WindowPropertyFlags::WND_PROP_AUTOSIZE => WND_PROP_AUTOSIZE,
        WindowPropertyFlags::WND_PROP_ASPECT_RATIO => WND_PROP_ASPECT_RATIO,
        WindowPropertyFlags::WND_PROP_OPENGL => WND_PROP_OPENGL,
        WindowPropertyFlags::WND_PROP_VISIBLE => WND_PROP_VISIBLE,
    }
}

/// Reads a native window-property value back into the typed catalog:
/// exactly the values of the five variants are accepted.
pub fn window_property_from_value(v: i32) -> (r: Option<WindowPropertyFlags>)
    ensures
        r matches Some(f) ==> spec_window_property_value(f) == v,
        r is None ==> forall|f: WindowPropertyFlags| spec_window_property_value(f) != v,
{
    if v == WND_PROP_FULLSCREEN {
        Some(WindowPropertyFlags::WND_PROP_FULLSCREEN)
    } else if v == WND_PROP_AUTOSIZE {
        Some(WindowPropertyFlags::WND_PROP_AUTOSIZE)
    } else if v == WND_PROP_ASPECT_RATIO {
        Some(WindowPropertyFlags::WND_PROP_ASPECT_RATIO)
    } else if v == WND_PROP_OPENGL {
        Some(WindowPropertyFlags::WND_PROP_OPENGL)
    } else if v == WND_PROP_VISIBLE {
        Some(WindowPropertyFlags::WND_PROP_VISIBLE)
    } else {
        None
    }
}

/// Every window property flag survives the trip through its numeric value.
pub proof fn lemma_window_property_round_trip(f: WindowPropertyFlags)
    ensures
        forall|g: WindowPropertyFlags|
            spec_window_property_value(g) == spec_window_property_value(f) ==> g == f,
{
}

/// Gets the mouse-wheel motion delta when handling a mouse-wheel event. For
/// regulated scrolling devices the delta is a multiple of 120, one notch of
/// the wheel; high-resolution devices may report smaller values.
///
/// The delta rides in the upper 16 bits of the event flags; the lower 16
/// bits hold the button and modifier flags. Reading it is pure arithmetic,
/// so it never fails.
pub fn get_mouse_wheel_delta(flags: i32) -> (r: Result<i32, crate::error::CvError>)
    ensures
        r matches Ok(d) && d == flags >> 16,
{
    Ok(flags >> 16)
}

/// Owner of one Qt font resource. The native library allocates the font and
/// hands back a non-null handle; this wrapper records it and gives it out to
/// the calls that draw with the font, until the handle is released through
/// the ledger.
pub struct QtFont {
    ptr: usize,
}

impl QtFont {
    /// The handle this wrapper owns: the non-null native address it was
    /// built from.
    pub closed spec fn handle(&self) -> usize {
        self.ptr
    }

    /// The wrapper never holds the null handle.
    pub open spec fn wf(&self) -> bool {
        self.handle() != 0
    }

    /// Wraps the handle a native factory call returned. Only a non-null
    /// handle denotes an allocated font.
    pub fn from_raw_ptr(ptr: usize) -> (r: QtFont)
        requires
            ptr != 0,
        ensures
            r.wf(),
            r.handle() == ptr,
    {
        QtFont { ptr }
    }

    /// The raw handle, as the native calls that take this font expect it.
    #[allow(non_snake_case)]
    pub fn as_raw_QtFont(&self) -> (r: usize)
        ensures
            r == self.handle(),
    {
        self.ptr
    }
}

} // verus!
