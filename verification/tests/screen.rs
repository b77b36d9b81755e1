use x11::xlib;
use x11_wrapper::color::{ColormapID, CreatedColormap, DefaultColormap, ALLOC_NONE};
use x11_wrapper::display::{EventsQueuedMode, ReadEvent, X11Display, XDisplay};
use x11_wrapper::error::QueryError;
use x11_wrapper::event::{ClientMessageEventCreator, EventCreator};
use x11_wrapper::screen::{BackingStore, Screen, XScreen};
use x11_wrapper::visual::{Visual, XVisualInfo, VISUAL_ID_MASK};

fn raw_screen() -> XScreen {
    XScreen {
        screen_number: 1,
        root: 0x50,
        width: 1920,
        height: 1080,
        mwidth: 508,
        mheight: 285,
        root_depth: 24,
        root_visual: 0x21,
        cmap: 0x20,
        cells: 256,
        white_pixel: 0xff_ffff,
        black_pixel: 1,
        max_maps: 3,
        min_maps: 2,
        backing_store: xlib::WhenMapped,
        save_unders: xlib::True,
    }
}

fn info(visualid: u64, depth: i32) -> XVisualInfo {
    XVisualInfo {
        visualid,
        screen: 0,
        depth,
        class: 4,
        red_mask: 0xff_0000,
        green_mask: 0xff00,
        blue_mask: 0xff,
        colormap_size: 256,
        bits_per_rgb: 8,
    }
}

fn raw_display() -> XDisplay {
    XDisplay {
        connection_number: 3,
        protocol_version: 11,
        protocol_revision: 0,
        vendor_release: 12_101_004,
        screen_count: 1,
        max_request_size: 65535,
        extended_max_request_size: 4_194_303,
    }
}

#[test]
fn screen_hands_out_what_xlib_knows() {
    let screen = Screen::new(raw_screen());
    assert_eq!(*screen.raw_screen(), raw_screen());
    assert_eq!(screen.black_pixel(), 1);
    assert_eq!(screen.white_pixel(), 0xff_ffff);
    assert_eq!(screen.colormap_cells(), 256);
    assert_eq!(screen.default_depth(), 24);
    assert_eq!(screen.screen_number(), 1);
    assert_eq!(screen.width_in_pixels(), 1920);
    assert_eq!(screen.height_in_pixels(), 1080);
    assert_eq!(screen.width_in_millimeters(), 508);
    assert_eq!(screen.height_in_millimeters(), 285);
    assert_eq!(screen.max_colormap_count(), 3);
    assert_eq!(screen.min_colormap_count(), 2);
    assert_eq!(screen.planes(), 24);
}

#[test]
fn zero_identifiers_of_a_screen_are_absent() {
    let screen = Screen::new(raw_screen());
    assert_eq!(screen.root_window_id(), Some(0x50));
    assert_eq!(screen.default_visual(), Some(0x21));
    assert_eq!(screen.default_colormap().unwrap().id(), 0x20);
    let screen = Screen::new(XScreen { root: 0, root_visual: 0, cmap: 0, ..raw_screen() });
    assert_eq!(screen.root_window_id(), None);
    assert_eq!(screen.default_visual(), None);
    assert!(screen.default_colormap().is_none());
}

#[test]
fn backing_store_of_a_screen() {
    let answer = |backing_store| {
        Screen::new(XScreen { backing_store, ..raw_screen() }).does_backing_store()
    };
    assert!(matches!(answer(xlib::WhenMapped), Ok(BackingStore::WhenMapped)));
    assert!(matches!(answer(xlib::NotUseful), Ok(BackingStore::NotUseful)));
    assert!(matches!(answer(xlib::Always), Ok(BackingStore::Always)));
    assert!(matches!(answer(3), Err(QueryError::UnknownEnumValue)));
    assert!(matches!(answer(-1), Err(QueryError::UnknownEnumValue)));
}

#[test]
fn save_unders_of_a_screen() {
    let answer =
        |save_unders| Screen::new(XScreen { save_unders, ..raw_screen() }).does_save_unders();
    assert!(answer(xlib::True));
    assert!(!answer(xlib::False));
    assert!(!answer(2));
    assert!(!answer(-1));
}

#[test]
fn ewmh_message_goes_to_the_root_window() {
    let screen = Screen::new(raw_screen());
    let mut message = ClientMessageEventCreator::new();
    message.client_message_mut().message_type = 321;
    let request = screen.send_ewmh_client_message_event(&mut message).unwrap();
    assert_eq!(request.window, 0x50);
    assert_eq!(request.propagate, xlib::False);
    assert_eq!(
        request.event_mask,
        xlib::SubstructureNotifyMask | xlib::SubstructureRedirectMask
    );
    assert_eq!(request.event.type_, xlib::ClientMessage);
    assert_eq!(request.event.client_message.message_type, 321);
    assert_eq!(message.raw_event_mut().client_message.message_type, 321);
    let no_root = Screen::new(XScreen { root: 0, ..raw_screen() });
    assert!(no_root.send_ewmh_client_message_event(&mut message).is_err());
}

#[test]
fn default_colormap_of_zero_is_absent() {
    assert!(DefaultColormap::new(0).is_none());
    assert_eq!(DefaultColormap::new(7).unwrap().id(), 7);
}

#[test]
fn created_colormap_of_zero_is_an_error() {
    assert!(CreatedColormap::create(0).is_err());
    assert_eq!(CreatedColormap::create(7).unwrap().id(), 7);
}

#[test]
fn colormap_request_names_root_and_visual() {
    let visual = Visual::new(Some(&[info(0x22, 32)])).unwrap();
    let request = CreatedColormap::request(&Screen::new(raw_screen()), &visual).unwrap();
    assert_eq!(request.window, 0x50);
    assert_eq!(request.visual_id, 0x22);
    assert_eq!(request.alloc, xlib::AllocNone);
    assert_eq!(ALLOC_NONE, xlib::AllocNone);
    let no_root = Screen::new(XScreen { root: 0, ..raw_screen() });
    assert!(CreatedColormap::request(&no_root, &visual).is_err());
}

#[test]
fn visual_request_goes_by_identifier() {
    let request = Visual::request(0x22);
    assert_eq!(request.vinfo_mask, xlib::VisualIDMask);
    assert_eq!(VISUAL_ID_MASK, xlib::VisualIDMask);
    assert_eq!(
        request.template,
        XVisualInfo {
            visualid: 0x22,
            screen: 0,
            depth: 0,
            class: 0,
            red_mask: 0,
            green_mask: 0,
            blue_mask: 0,
            colormap_size: 0,
            bits_per_rgb: 0,
        }
    );
}

#[test]
fn visual_is_the_first_that_was_found() {
    assert!(Visual::new(None).is_none());
    assert!(Visual::new(Some(&[])).is_none());
    let visual = Visual::new(Some(&[info(0x22, 32), info(0x23, 24)])).unwrap();
    assert_eq!(visual.visual_id(), 0x22);
    assert_eq!(visual.depth(), 32);
    assert_eq!(*visual.visual_info(), info(0x22, 32));
}

#[test]
fn events_queued_modes_are_numbered_from_zero() {
    assert_eq!(EventsQueuedMode::QueuedAlready.to_xlib_mode(), 0);
    assert_eq!(EventsQueuedMode::QueuedAfterReading.to_xlib_mode(), 1);
    assert_eq!(EventsQueuedMode::QueuedAfterFlush.to_xlib_mode(), 2);
}

#[test]
fn display_hands_out_what_xlib_knows() {
    let display = X11Display::new(raw_display());
    assert_eq!(*display.raw_display(), raw_display());
    assert_eq!(display.connection_number(), 3);
    assert_eq!(display.protocol_version(), 11);
    assert_eq!(display.protocol_revision(), 0);
    assert_eq!(display.vendor_release(), 12_101_004);
    assert_eq!(display.screen_count(), 1);
    assert_eq!(display.max_request_size(), 65535);
}

#[test]
fn extended_request_size_of_zero_is_absent() {
    let display = X11Display::new(raw_display());
    assert_eq!(display.extended_max_request_size(), Some(4_194_303));
    let display = X11Display::new(XDisplay { extended_max_request_size: 0, ..raw_display() });
    assert_eq!(display.extended_max_request_size(), None);
    let display = X11Display::new(XDisplay { extended_max_request_size: -1, ..raw_display() });
    assert_eq!(display.extended_max_request_size(), Some(-1));
}

#[test]
fn reading_an_event_counts_the_queue_first() {
    let display = X11Display::new(raw_display());
    assert_eq!(
        display.read_event(None, None),
        ReadEvent::Count(EventsQueuedMode::QueuedAlready)
    );
    assert_eq!(display.read_event(None, Some(5)), ReadEvent::Count(EventsQueuedMode::QueuedAlready));
    assert_eq!(display.read_event(Some(1), None), ReadEvent::Next);
    assert_eq!(display.read_event(Some(i32::MAX), Some(0)), ReadEvent::Next);
}

#[test]
fn reading_an_event_reads_the_connection_if_the_queue_is_empty() {
    let display = X11Display::new(raw_display());
    assert_eq!(
        display.read_event(Some(0), None),
        ReadEvent::Count(EventsQueuedMode::QueuedAfterReading)
    );
    assert_eq!(
        display.read_event(Some(-1), None),
        ReadEvent::Count(EventsQueuedMode::QueuedAfterReading)
    );
    assert_eq!(display.read_event(Some(0), Some(2)), ReadEvent::Next);
    assert_eq!(display.read_event(Some(0), Some(0)), ReadEvent::Nothing);
    assert_eq!(display.read_event(Some(-3), Some(-1)), ReadEvent::Nothing);
}
