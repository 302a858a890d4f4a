//! The names of the optional X11 libraries that the registry knows.

use vstd::prelude::*;

verus! {

/// One of the X11 libraries that may be loaded at run time.
#[derive(Clone, Copy, Debug, PartialEq, Eq, Structural, Hash)]
pub enum Library {
    Xext,
    Xss,
    Xft,
    Xt,
    Xmu,
    Xrender,
    Xcursor,
    Glx,
    XInput,
    XInput2,
    Xrandr220,
    Xrandr,
    Xf86vmode,
    XtestXf86vmode,
    XrecordXf86vmode,
    Xinerama,
    Xlib,
    XlibXcb,
}

/// How many libraries the registry knows.
pub const LIBRARY_COUNT: usize = 18;

impl Library {
    /// The position of this library in the registry.
    pub open spec fn spec_index(self) -> int {
        match self {
            Library::Xext => 0,
            Library::Xss => 1,
            Library::Xft => 2,
            Library::Xt => 3,
            Library::Xmu => 4,
            Library::Xrender => 5,
            Library::Xcursor => 6,
            Library::Glx => 7,
            Library::XInput => 8,
            Library::XInput2 => 9,
            Library::Xrandr220 => 10,
            Library::Xrandr => 11,
            Library::Xf86vmode => 12,
            Library::XtestXf86vmode => 13,
            Library::XrecordXf86vmode => 14,
            Library::Xinerama => 15,
            Library::Xlib => 16,
            Library::XlibXcb => 17,
        }
    }

    /// The name under which the registry publishes this library.
    pub open spec fn spec_name(self) -> Seq<char> {
        match self {
            Library::Xext => "XEXT"@,
            Library::Xss => "XSS"@,
            Library::Xft => "XFT"@,
            Library::Xt => "XT"@,
            Library::Xmu => "XMU"@,
            Library::Xrender => "XRENDER"@,
            Library::Xcursor => "XCURSOR"@,
            Library::Glx => "GLX"@,
            Library::XInput => "XINPUT"@,
            Library::XInput2 => "XINPUT2"@,
            Library::Xrandr220 => "XRANDR_2_2_0"@,
            Library::Xrandr => "XRANDR"@,
            Library::Xf86vmode => "XF86VMODE"@,
            Library::XtestXf86vmode => "XTEST_XF86VMODE"@,
            Library::XrecordXf86vmode => "XRECORD_XF86VMODE"@,
            Library::Xinerama => "XINERAMA"@,
            Library::Xlib => "XLIB"@,
            Library::XlibXcb => "XLIB_XCB"@,
        }
    }

    /// The position of this library in the registry.
    pub fn index(self) -> (i: usize)
        ensures
            i == self.spec_index(),
            i < LIBRARY_COUNT,
    {
        match self {
            Library::Xext => 0,
            Library::Xss => 1,
            Library::Xft => 2,
            Library::Xt => 3,
            Library::Xmu => 4,
            Library::Xrender => 5,
            Library::Xcursor => 6,
            Library::Glx => 7,
            Library::XInput => 8,
            Library::XInput2 => 9,
            Library::Xrandr220 => 10,
            Library::Xrandr => 11,
            Library::Xf86vmode => 12,
            Library::XtestXf86vmode => 13,
            Library::XrecordXf86vmode => 14,
            Library::Xinerama => 15,
            Library::Xlib => 16,
            Library::XlibXcb => 17,
        }
    }

    /// The name under which the registry publishes this library.
    pub fn name(self) -> (n: &'static str)
        ensures
            n@ == self.spec_name(),
    {
        match self {
            Library::Xext => "XEXT",
            Library::Xss => "XSS",
            Library::Xft => "XFT",
            Library::Xt => "XT",
            Library::Xmu => "XMU",
            Library::Xrender => "XRENDER",
            Library::Xcursor => "XCURSOR",
            Library::Glx => "GLX",
            Library::XInput => "XINPUT",
            Library::XInput2 => "XINPUT2",
            Library::Xrandr220 => "XRANDR_2_2_0",
            Library::Xrandr => "XRANDR",
            Library::Xf86vmode => "XF86VMODE",
            Library::XtestXf86vmode => "XTEST_XF86VMODE",
            Library::XrecordXf86vmode => "XRECORD_XF86VMODE",
            Library::Xinerama => "XINERAMA",
            Library::Xlib => "XLIB",
            Library::XlibXcb => "XLIB_XCB",
        }
    }
}

} // verus!
