//! The constants of the `x11` bindings that the session's requests carry.
//!
//! Each function here hands out one constant of `x11::xlib`. Its value is
//! not proved: it is taken on trust from the bindings' declaration.

use vstd::prelude::*;

verus! {

/// `x11::xlib::MapNotify`, the type of the event that reports a window
/// mapped. Trusted: the bindings declare it as 19.
#[verifier::external_body]
pub(crate) fn map_notify() -> (code: i32)
    ensures
        code == 19,
{
    x11::xlib::MapNotify
}

/// `x11::xlib::StructureNotifyMask`, the event mask that selects structure
/// notifications. Trusted: the bindings declare it as `0x0002_0000`.
#[verifier::external_body]
pub(crate) fn structure_notify_mask() -> (mask: i64)
    ensures
        mask == 0x0002_0000,
{
    x11::xlib::StructureNotifyMask
}

/// `x11::xlib::AllocNone`, the colormap allocation mode that reserves no
/// entries. Trusted: the bindings declare it as 0.
#[verifier::external_body]
pub(crate) fn alloc_none() -> (mode: i32)
    ensures
        mode == 0,
{
    x11::xlib::AllocNone
}

/// `x11::xlib::CWBackPixel`, the value-mask bit of the background pixel.
/// Trusted: the bindings declare it as `0x0002`.
#[verifier::external_body]
pub(crate) fn cw_back_pixel() -> (bit: u64)
    ensures
        bit == 0x0002,
{
    x11::xlib::CWBackPixel
}

/// `x11::xlib::CWBorderPixel`, the value-mask bit of the border pixel.
/// Trusted: the bindings declare it as `0x0008`.
#[verifier::external_body]
pub(crate) fn cw_border_pixel() -> (bit: u64)
    ensures
        bit == 0x0008,
{
    x11::xlib::CWBorderPixel
}

/// `x11::xlib::CWColormap`, the value-mask bit of the colormap.
/// Trusted: the bindings declare it as `0x2000`.
#[verifier::external_body]
pub(crate) fn cw_colormap() -> (bit: u64)
    ensures
        bit == 0x2000,
{
    x11::xlib::CWColormap
}

} // verus!
