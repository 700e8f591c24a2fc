//! Opaque native handles, callback references, and the sentinel constants
//! whose values are fixed by the native toolkit's ABI contract.

use vstd::prelude::*;

verus! {

/// An opaque reference to a native-owned object (a widget, a dialog, a
/// timer). The native library is the sole owner, allocator and destroyer of
/// every instance; this layer only stores, copies and passes the address
/// value. The address 0 is a first-class valid state meaning "no handle" /
/// "use the default".
#[derive(Clone, Copy, Debug, PartialEq, Eq, Structural)]
pub struct Ihandle {
    pub addr: usize,
}

impl Ihandle {
    /// True when this is the "no handle" value.
    pub open spec fn spec_is_null(&self) -> bool {
        self.addr == 0
    }

    #[verifier::when_used_as_spec(spec_is_null)]
    pub fn is_null(&self) -> (r: bool)
        ensures
            r == self.spec_is_null(),
    {
        self.addr == 0
    }
}

/// A reference to a callback function with the native calling convention.
/// Ownership of the underlying function lives with whichever code registered
/// it; this layer only passes the address through. Address 0 means "no
/// callback registered".
#[derive(Clone, Copy, Debug, PartialEq, Eq, Structural)]
pub struct Icallback {
    pub addr: usize,
}

/// Return code of a native call that failed.
pub const ERROR: i32 = 1;

/// Return code of a native call that succeeded; the single success sentinel.
pub const NOERROR: i32 = 0;

/// Return code of the initialization entry point when it was already open.
pub const OPENED: i32 = -1;

/// Return code meaning an invalid argument was passed.
pub const INVALID: i32 = -1;

/// Return code meaning an invalid identifier was passed.
pub const INVALID_ID: i32 = -10;

/// Callback return: ignore the event.
pub const IGNORE: i32 = -1;

/// Callback return: proceed with the default treatment.
pub const DEFAULT: i32 = -2;

/// Callback return: close the enclosing dialog.
pub const CLOSE: i32 = -3;

/// Callback return: continue propagating the event.
pub const CONTINUE: i32 = -4;

/// Attribute name: the action callback of a widget.
pub const ACTION: &'static str = "ACTION";

/// Attribute name: the action callback of a timer.
pub const ACTION_CB: &'static str = "ACTION_CB";

/// Attribute name: raise a dialog to the front.
pub const BRINGFRONT: &'static str = "BRINGFRONT";

/// Attribute name: the icon of a dialog.
pub const ICON: &'static str = "ICON";

/// Attribute name: the name of a widget.
pub const NAME: &'static str = "NAME";

/// Attribute name: start or stop a timer.
pub const RUN: &'static str = "RUN";

/// Global attribute name: the windowing system in use.
pub const SYSTEM: &'static str = "SYSTEM";

/// Global attribute name: the windowing system's version.
pub const SYSTEMVERSION: &'static str = "SYSTEMVERSION";

/// Attribute name: the interval of a timer in milliseconds.
pub const TIME: &'static str = "TIME";

/// Attribute name: the title of a widget.
pub const TITLE: &'static str = "TITLE";

/// Attribute value: boolean true.
pub const YES: &'static str = "YES";

/// Attribute value: boolean false.
pub const NO: &'static str = "NO";

/// Global attribute name: text-encoding mode; set to [`YES`] right after
/// initialization so the native library exchanges UTF-8 text.
pub const UTF8MODE: &'static str = "UTF8MODE";

/// Window placement: center on the screen.
pub const CENTER: i32 = 0xFFFF;

/// Window placement: left edge of the screen.
pub const LEFT: i32 = 0xFFFE;

/// Window placement: right edge of the screen.
pub const RIGHT: i32 = 0xFFFD;

/// Window placement: at the mouse position.
pub const MOUSEPOS: i32 = 0xFFFC;

/// Window placement: keep the current position.
pub const CURRENT: i32 = 0xFFFB;

/// Window placement: center on the parent dialog.
pub const CENTERPARENT: i32 = 0xFFFA;

/// Window placement: left edge of the parent dialog.
pub const LEFTPARENT: i32 = 0xFFF9;

/// Window placement: right edge of the parent dialog.
pub const RIGHTPARENT: i32 = 0xFFF8;

/// Window placement: top edge of the screen.
pub const TOP: i32 = LEFT;

/// Window placement: bottom edge of the screen.
pub const BOTTOM: i32 = RIGHT;

/// Window placement: top edge of the parent dialog.
pub const TOPPARENT: i32 = LEFTPARENT;

/// Window placement: bottom edge of the parent dialog.
pub const BOTTOMPARENT: i32 = RIGHTPARENT;

} // verus!
