use x11::xlib;
use x11_wrapper::event::EventMask;
use x11_wrapper::window::attribute::{
    AttributeMask, BackgroundPixmap, BackingStore, BorderPixmap, Colormap, Cursor,
    DoNotPropagateMask, Gravity, OverrideRedirect, SaveUnder, WindowAttributes, WindowGravity,
    XSetWindowAttributes, COPY_FROM_PARENT, PARENT_RELATIVE,
};

#[test]
fn attribute_flags_are_those_of_xlib() {
    let table = [
        (AttributeMask::BACK_PIXMAP, xlib::CWBackPixmap),
        (AttributeMask::BACK_PIXEL, xlib::CWBackPixel),
        (AttributeMask::BORDER_PIXMAP, xlib::CWBorderPixmap),
        (AttributeMask::BORDER_PIXEL, xlib::CWBorderPixel),
        (AttributeMask::BIT_GRAVITY, xlib::CWBitGravity),
        (AttributeMask::WIN_GRAVITY, xlib::CWWinGravity),
        (AttributeMask::BACKING_STORE, xlib::CWBackingStore),
        (AttributeMask::BACKING_PLANES, xlib::CWBackingPlanes),
        (AttributeMask::BACKING_PIXEL, xlib::CWBackingPixel),
        (AttributeMask::OVERRIDE_REDIRECT, xlib::CWOverrideRedirect),
        (AttributeMask::SAVE_UNDER, xlib::CWSaveUnder),
        (AttributeMask::EVENT_MASK, xlib::CWEventMask),
        (AttributeMask::DONT_PROPAGATE, xlib::CWDontPropagate),
        (AttributeMask::COLORMAP, xlib::CWColormap),
        (AttributeMask::CURSOR, xlib::CWCursor),
    ];
    let mut all = 0;
    for (flag, mask) in table {
        assert_eq!(flag, mask as u64);
        all |= flag;
    }
    assert_eq!(all, AttributeMask::ALL);
}

#[test]
fn attribute_mask_operations() {
    assert_eq!(AttributeMask::empty().bits(), 0);
    assert_eq!(AttributeMask::from_bits_truncate(0x1_8001).bits(), 1);
    assert_eq!(AttributeMask::from_bits_truncate(u64::MAX).bits(), 0x7fff);
    let a = AttributeMask::from_bits_truncate(AttributeMask::COLORMAP);
    let b = AttributeMask::from_bits_truncate(AttributeMask::EVENT_MASK);
    assert_eq!(a.union(b).bits(), 0x2800);
    assert!(a.union(b).contains(a));
    assert!(!a.contains(b));
}

#[test]
fn do_not_propagate_flags_are_those_of_xlib() {
    let table = [
        (DoNotPropagateMask::KEY_PRESS, xlib::KeyPressMask),
        (DoNotPropagateMask::KEY_RELEASE, xlib::KeyReleaseMask),
        (DoNotPropagateMask::BUTTON_PRESS, xlib::ButtonPressMask),
        (DoNotPropagateMask::BUTTON_RELEASE, xlib::ButtonReleaseMask),
        (DoNotPropagateMask::POINTER_MOTION, xlib::PointerMotionMask),
        (DoNotPropagateMask::BUTTON_1_MOTION, xlib::Button1MotionMask),
        (DoNotPropagateMask::BUTTON_2_MOTION, xlib::Button2MotionMask),
        (DoNotPropagateMask::BUTTON_3_MOTION, xlib::Button3MotionMask),
        (DoNotPropagateMask::BUTTON_4_MOTION, xlib::Button4MotionMask),
        (DoNotPropagateMask::BUTTON_5_MOTION, xlib::Button5MotionMask),
        (DoNotPropagateMask::BUTTON_MOTION, xlib::ButtonMotionMask),
    ];
    let mut all = 0;
    for (flag, mask) in table {
        assert_eq!(flag, mask as i64);
        all |= flag;
    }
    assert_eq!(all, DoNotPropagateMask::ALL);
}

#[test]
fn do_not_propagate_mask_operations() {
    assert_eq!(DoNotPropagateMask::empty().bits(), 0);
    assert!(DoNotPropagateMask::from_bits(xlib::EnterWindowMask).is_none());
    assert!(DoNotPropagateMask::from_bits(-1).is_none());
    assert_eq!(DoNotPropagateMask::from_bits(0x41).unwrap().bits(), 0x41);
    assert_eq!(DoNotPropagateMask::from_bits_truncate(0x71).bits(), 0x41);
    let keys = DoNotPropagateMask::from_bits_truncate(3);
    let buttons = DoNotPropagateMask::from_bits_truncate(0xc);
    assert_eq!(keys.union(buttons).bits(), 0xf);
    assert!(keys.union(buttons).contains(buttons));
    assert!(!buttons.contains(keys));
}

#[test]
fn masks_as_attributes_lose_unknown_bits() {
    assert_eq!(EventMask::from_xlib_attribute(0x3).bits(), 0x3);
    assert_eq!(EventMask::from_xlib_attribute(0x0200_0003).bits(), 0x3);
    assert_eq!(EventMask::from_xlib_attribute(-1).bits(), EventMask::ALL);
    assert_eq!(EventMask::from_bits_truncate(0x30).to_xlib_attribute(), 0x30);
    assert_eq!(DoNotPropagateMask::from_xlib_attribute(0x3).bits(), 0x3);
    assert_eq!(DoNotPropagateMask::from_xlib_attribute(0x33).bits(), 0x3);
    assert_eq!(DoNotPropagateMask::from_xlib_attribute(-1).bits(), DoNotPropagateMask::ALL);
    assert_eq!(DoNotPropagateMask::from_bits_truncate(0x40).to_xlib_attribute(), 0x40);
}

#[test]
fn special_identifiers_are_those_of_xlib() {
    assert_eq!(COPY_FROM_PARENT, xlib::CopyFromParent as u64);
    assert_eq!(PARENT_RELATIVE, xlib::ParentRelative as u64);
}

#[test]
fn background_pixmap_conversion() {
    assert_eq!(BackgroundPixmap::Background(77).to_xlib_attribute(), 77);
    assert_eq!(BackgroundPixmap::ParentRelative.to_xlib_attribute(), 1);
    assert_eq!(BackgroundPixmap::NoBackground.to_xlib_attribute(), 0);
    assert_eq!(BackgroundPixmap::from_xlib_attribute(0), BackgroundPixmap::NoBackground);
    assert_eq!(BackgroundPixmap::from_xlib_attribute(1), BackgroundPixmap::ParentRelative);
    assert_eq!(BackgroundPixmap::from_xlib_attribute(2), BackgroundPixmap::Background(2));
    assert_eq!(
        BackgroundPixmap::from_xlib_attribute(u64::MAX),
        BackgroundPixmap::Background(u64::MAX)
    );
}

#[test]
fn border_pixmap_conversion() {
    assert_eq!(BorderPixmap::Border(77).to_xlib_attribute(), 77);
    assert_eq!(BorderPixmap::CopyFromParent.to_xlib_attribute(), 0);
    assert_eq!(BorderPixmap::from_xlib_attribute(0), BorderPixmap::CopyFromParent);
    assert_eq!(BorderPixmap::from_xlib_attribute(1), BorderPixmap::Border(1));
}

#[test]
fn bit_gravity_conversion() {
    assert_eq!(Gravity::Forget.to_xlib_attribute(), xlib::ForgetGravity);
    assert_eq!(Gravity::Static.to_xlib_attribute(), xlib::StaticGravity);
    assert_eq!(Gravity::from_xlib_attribute(xlib::ForgetGravity), Gravity::Forget);
    assert_eq!(Gravity::from_xlib_attribute(xlib::StaticGravity), Gravity::Static);
    assert_eq!(Gravity::from_xlib_attribute(xlib::CenterGravity), Gravity::Forget);
    assert_eq!(Gravity::from_xlib_attribute(-1), Gravity::Forget);
    assert_eq!(Gravity::default(), Gravity::Forget);
}

#[test]
fn window_gravity_conversion() {
    let table = [
        (WindowGravity::NorthWest, xlib::NorthWestGravity),
        (WindowGravity::North, xlib::NorthGravity),
        (WindowGravity::NorthEast, xlib::NorthEastGravity),
        (WindowGravity::West, xlib::WestGravity),
        (WindowGravity::Center, xlib::CenterGravity),
        (WindowGravity::East, xlib::EastGravity),
        (WindowGravity::SouthWest, xlib::SouthWestGravity),
        (WindowGravity::South, xlib::SouthGravity),
        (WindowGravity::SouthEast, xlib::SouthEastGravity),
        (WindowGravity::Unmap, xlib::UnmapGravity),
    ];
    for (gravity, code) in table {
        assert_eq!(gravity.to_xlib_attribute(), code);
        assert_eq!(WindowGravity::from_xlib_attribute(code), gravity);
    }
    assert_eq!(WindowGravity::from_xlib_attribute(xlib::StaticGravity), WindowGravity::NorthWest);
    assert_eq!(WindowGravity::from_xlib_attribute(-1), WindowGravity::NorthWest);
    assert_eq!(WindowGravity::from_xlib_attribute(i32::MAX), WindowGravity::NorthWest);
    assert_eq!(WindowGravity::default(), WindowGravity::NorthWest);
}

#[test]
fn backing_store_conversion() {
    let table = [
        (BackingStore::NotUseful, xlib::NotUseful),
        (BackingStore::WhenMapped, xlib::WhenMapped),
        (BackingStore::Always, xlib::Always),
    ];
    for (hint, code) in table {
        assert_eq!(hint.to_xlib_attribute(), code);
        assert_eq!(BackingStore::from_xlib_attribute(code), hint);
    }
    assert_eq!(BackingStore::from_xlib_attribute(3), BackingStore::NotUseful);
    assert_eq!(BackingStore::from_xlib_attribute(-1), BackingStore::NotUseful);
    assert_eq!(BackingStore::default(), BackingStore::NotUseful);
}

#[test]
fn boolean_attribute_conversion() {
    assert_eq!(SaveUnder(true).to_xlib_attribute(), xlib::True);
    assert_eq!(SaveUnder(false).to_xlib_attribute(), xlib::False);
    assert_eq!(SaveUnder::from_xlib_attribute(xlib::True), SaveUnder(true));
    assert_eq!(SaveUnder::from_xlib_attribute(xlib::False), SaveUnder(false));
    assert_eq!(SaveUnder::from_xlib_attribute(2), SaveUnder(false));
    assert_eq!(SaveUnder::from_xlib_attribute(-1), SaveUnder(false));
    assert_eq!(SaveUnder::default(), SaveUnder(false));
    assert_eq!(OverrideRedirect(true).to_xlib_attribute(), xlib::True);
    assert_eq!(OverrideRedirect(false).to_xlib_attribute(), xlib::False);
    assert_eq!(OverrideRedirect::from_xlib_attribute(xlib::True), OverrideRedirect(true));
    assert_eq!(OverrideRedirect::from_xlib_attribute(xlib::False), OverrideRedirect(false));
    assert_eq!(OverrideRedirect::from_xlib_attribute(7), OverrideRedirect(false));
    assert_eq!(OverrideRedirect::default(), OverrideRedirect(false));
}

#[test]
fn colormap_and_cursor_conversion() {
    assert_eq!(Colormap::Colormap(9).to_xlib_attribute(), 9);
    assert_eq!(Colormap::CopyFromParent.to_xlib_attribute(), 0);
    assert_eq!(Colormap::from_xlib_attribute(0), Colormap::CopyFromParent);
    assert_eq!(Colormap::from_xlib_attribute(9), Colormap::Colormap(9));
    assert_eq!(Cursor::Cursor(9).to_xlib_attribute(), 9);
    assert_eq!(Cursor::NoCursor.to_xlib_attribute(), 0);
    assert_eq!(Cursor::from_xlib_attribute(0), Cursor::NoCursor);
    assert_eq!(Cursor::from_xlib_attribute(9), Cursor::Cursor(9));
}

#[test]
fn default_attributes_are_those_of_xlib() {
    let attributes = WindowAttributes::default();
    assert_eq!(attributes.selected_attributes().bits(), 0);
    assert_eq!(
        *attributes.xlib_attributes(),
        XSetWindowAttributes {
            background_pixmap: 0,
            background_pixel: 0,
            border_pixmap: xlib::CopyFromParent as u64,
            border_pixel: 0,
            bit_gravity: xlib::ForgetGravity,
            win_gravity: xlib::NorthWestGravity,
            backing_store: xlib::NotUseful,
            backing_planes: u64::MAX,
            backing_pixel: 0,
            save_under: xlib::False,
            event_mask: 0,
            do_not_propagate_mask: 0,
            override_redirect: xlib::False,
            colormap: xlib::CopyFromParent as u64,
            cursor: 0,
        }
    );
}
