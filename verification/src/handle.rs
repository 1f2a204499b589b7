//! The window-handle adapter: converts a host-supplied, platform-tagged
//! window reference into the handle representation the embedding API
//! requires.
//!
//! The host hands over one of three platform variants; each wraps a raw
//! window or view identity, carried here as a plain integer (pointers by
//! their address), so that the one precondition of the conversion — a
//! non-zero identity — can be stated and checked exactly.

use vstd::prelude::*;

verus! {

/// A window reference supplied by the host, tagged with the platform it
/// comes from. Pointer-valued variants carry the pointer as its address.
#[derive(Clone, Copy, PartialEq, Eq, Structural, Debug)]
pub enum ParentWindowHandle {
    /// An X11 window identifier.
    X11Window(u32),
    /// The address of an AppKit `NSView` object.
    AppKitNsView(usize),
    /// A Win32 `HWND`, by its address.
    Win32Hwnd(usize),
}

/// The handle representation the embedding API requires: the same three
/// platforms, with non-zero identity guaranteed by construction.
#[derive(Clone, Copy, PartialEq, Eq, Structural, Debug)]
pub enum NativeWindowHandle {
    /// A connection-less XCB window handle. No display connection is
    /// carried; some embedding backends may need one, a known limitation.
    Xcb { window: u32 },
    /// A non-null AppKit view handle, by its address.
    AppKit { ns_view: usize },
    /// A non-zero Win32 window handle, reinterpreted as a signed
    /// pointer-sized integer.
    Win32 { hwnd: isize },
}

/// Why a host-supplied window handle could not be adapted.
#[derive(Clone, Copy, PartialEq, Eq, Structural, Debug)]
pub enum HandleError {
    /// The host supplied a zero/null window identity: a breach of the
    /// host's side of the contract.
    NullHandle,
}

impl ParentWindowHandle {
    /// The identity of the wrapped window or view, as an integer. A Win32
    /// handle is read as a signed pointer-sized integer, which is how the
    /// embedding API takes it.
    pub open spec fn identity(self) -> int {
        match self {
            ParentWindowHandle::X11Window(window) => window as int,
            ParentWindowHandle::AppKitNsView(ns_view) => ns_view as int,
            ParentWindowHandle::Win32Hwnd(hwnd) => hwnd as isize as int,
        }
    }

    /// A zero/null identity breaks the host's side of the contract: no
    /// native handle may wrap it.
    pub open spec fn is_null(self) -> bool {
        self.identity() == 0
    }
}

impl NativeWindowHandle {
    /// Every native handle carries a non-zero identity.
    pub open spec fn wf(self) -> bool {
        match self {
            NativeWindowHandle::Xcb { window } => window != 0,
            NativeWindowHandle::AppKit { ns_view } => ns_view != 0,
            NativeWindowHandle::Win32 { hwnd } => hwnd != 0,
        }
    }

    /// This native handle stands for the given parent handle: the same
    /// platform tag, wrapping the same identity.
    pub open spec fn adapts(self, parent: ParentWindowHandle) -> bool {
        match (self, parent) {
            (NativeWindowHandle::Xcb { window }, ParentWindowHandle::X11Window(w)) => window == w,
            (
                NativeWindowHandle::AppKit { ns_view },
                ParentWindowHandle::AppKitNsView(p),
            ) => ns_view == p,
            (NativeWindowHandle::Win32 { hwnd }, ParentWindowHandle::Win32Hwnd(p)) => (hwnd
                == p as isize),
            _ => false,
        }
    }
}

/// Convert a host-supplied window handle into the native representation
/// the embedding API requires.
///
/// The conversion is total over the platform tag and pure: it succeeds
/// exactly when the wrapped identity is non-zero, and then yields the
/// native handle with the matching platform tag and the same identity.
/// A zero/null identity is rejected with a typed error; no partial or
/// garbage handle is ever produced.
pub fn adapt_window_handle(parent: ParentWindowHandle) -> (r: Result<
    NativeWindowHandle,
    HandleError,
>)
    ensures
        r is Ok <==> !parent.is_null(),
        parent.is_null() ==> r == Err::<NativeWindowHandle, HandleError>(HandleError::NullHandle),
        r matches Ok(native) ==> native.wf() && native.adapts(parent),
{
    match parent {
        ParentWindowHandle::X11Window(window) => {
            if window == 0 {
                Err(HandleError::NullHandle)
            } else {
                Ok(NativeWindowHandle::Xcb { window })
            }
        },
        ParentWindowHandle::AppKitNsView(ns_view) => {
            if ns_view == 0 {
                Err(HandleError::NullHandle)
            } else {
                Ok(NativeWindowHandle::AppKit { ns_view })
            }
        },
        ParentWindowHandle::Win32Hwnd(hwnd) => {
            let hwnd_signed: isize = hwnd as isize;
            if hwnd_signed == 0 {
                Err(HandleError::NullHandle)
            } else {
                Ok(NativeWindowHandle::Win32 { hwnd: hwnd_signed })
            }
        },
    }
}

} // verus!
