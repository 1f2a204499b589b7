use wry_editor::handle::HandleError;
use wry_editor::handle::NativeWindowHandle;
use wry_editor::handle::ParentWindowHandle;
use wry_editor::handle::adapt_window_handle;

#[test]
fn x11_nonzero_adapts_to_xcb() {
    let r = adapt_window_handle(ParentWindowHandle::X11Window(42));
    assert_eq!(r, Ok(NativeWindowHandle::Xcb { window: 42 }));
}

#[test]
fn appkit_nonnull_adapts_to_appkit() {
    let r = adapt_window_handle(ParentWindowHandle::AppKitNsView(0xdead_beef));
    assert_eq!(r, Ok(NativeWindowHandle::AppKit { ns_view: 0xdead_beef }));
}

#[test]
fn win32_nonzero_adapts_to_win32_signed() {
    let r = adapt_window_handle(ParentWindowHandle::Win32Hwnd(0x1234));
    assert_eq!(r, Ok(NativeWindowHandle::Win32 { hwnd: 0x1234 }));
}

#[test]
fn win32_high_address_reinterprets_as_negative() {
    let address = usize::MAX;
    let r = adapt_window_handle(ParentWindowHandle::Win32Hwnd(address));
    assert_eq!(r, Ok(NativeWindowHandle::Win32 { hwnd: -1 }));
}

#[test]
fn x11_zero_is_rejected() {
    let r = adapt_window_handle(ParentWindowHandle::X11Window(0));
    assert_eq!(r, Err(HandleError::NullHandle));
}

#[test]
fn appkit_null_is_rejected() {
    let r = adapt_window_handle(ParentWindowHandle::AppKitNsView(0));
    assert_eq!(r, Err(HandleError::NullHandle));
}

#[test]
fn win32_zero_is_rejected() {
    let r = adapt_window_handle(ParentWindowHandle::Win32Hwnd(0));
    assert_eq!(r, Err(HandleError::NullHandle));
}
