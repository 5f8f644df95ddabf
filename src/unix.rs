//! The POSIX driver's logic: the kernel's window size record and the
//! canonical-mode test on the local flags of a termios record.
use vstd::prelude::*;

use crate::TerminalSize;

verus! {

/// The fields of the kernel's window-size record, as the window-size ioctl
/// fills them.
#[derive(Debug, Clone, Copy, PartialEq, Eq, Structural)]
pub struct WinSize {
    pub ws_row: u16,
    pub ws_col: u16,
    pub ws_xpixel: u16,
    pub ws_ypixel: u16,
}

/// The terminal size that a window-size record reports: columns are the
/// width, rows the height, and the pixel fields are taken as they are.
pub fn size(info: WinSize) -> (r: TerminalSize)
    ensures
        r.width == info.ws_col,
        r.height == info.ws_row,
        r.pixel_width == info.ws_xpixel,
        r.pixel_height == info.ws_ypixel,
{
    TerminalSize {
        width: info.ws_col,
        height: info.ws_row,
        pixel_width: info.ws_xpixel,
        pixel_height: info.ws_ypixel,
    }
}

/// Raw mode on a POSIX terminal: the canonical-mode bit of the local flags
/// is clear.
pub open spec fn is_raw_spec(local_flags: u64, canonical_flag: u64) -> bool {
    local_flags & canonical_flag == 0
}

/// Whether the local flags `local_flags` of a termios record have the
/// canonical-mode bit `canonical_flag` (the platform's `ICANON`) clear.
pub fn is_raw_mode_enabled(local_flags: u64, canonical_flag: u64) -> (r: bool)
    ensures
        r == is_raw_spec(local_flags, canonical_flag),
{
    local_flags & canonical_flag == 0
}

} // verus!
