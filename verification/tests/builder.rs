use x11::xlib;
use x11_wrapper::color::{ColormapID, CreatedColormap};
use x11_wrapper::screen::{Screen, XScreen};
use x11_wrapper::visual::{Visual, XVisualInfo};
use x11_wrapper::window::builder::{InputOutputWindow, WindowBuilder, WindowID};
use x11_wrapper::window::{StackMode, XWindowChanges};

fn screen_with_root(root: u64, screen_number: i32) -> Screen {
    Screen::new(XScreen {
        screen_number,
        root,
        width: 1920,
        height: 1080,
        mwidth: 508,
        mheight: 285,
        root_depth: 24,
        root_visual: 0x21,
        cmap: 0x20,
        cells: 256,
        white_pixel: 0xff_ffff,
        black_pixel: 0,
        max_maps: 1,
        min_maps: 1,
        backing_store: 0,
        save_unders: 0,
    })
}

fn visual(visualid: u64, depth: i32) -> Visual {
    let info = XVisualInfo {
        visualid,
        screen: 0,
        depth,
        class: 4,
        red_mask: 0xff_0000,
        green_mask: 0xff00,
        blue_mask: 0xff,
        colormap_size: 256,
        bits_per_rgb: 8,
    };
    Visual::new(Some(&[info])).unwrap()
}

fn built(window_id: u64, top_level: bool) -> InputOutputWindow {
    WindowBuilder::new(0x50, top_level).unwrap().build_input_output_window(window_id).unwrap()
}

#[test]
fn window_builder_needs_a_parent() {
    assert!(WindowBuilder::new(0, true).is_err());
    assert!(WindowBuilder::new(0, false).is_err());
    assert!(WindowBuilder::new(1, false).is_ok());
}

#[test]
fn window_builder_defaults() {
    let request = WindowBuilder::new(0x50, false).unwrap().create_window_request();
    assert_eq!(request.parent, 0x50);
    assert_eq!((request.x, request.y, request.width, request.height), (0, 0, 640, 480));
    assert_eq!(request.border_width, 0);
    assert_eq!(request.depth, xlib::CopyFromParent);
    assert_eq!(request.class, xlib::InputOutput as u32);
    assert_eq!(request.visual, None);
    assert_eq!(request.valuemask, 0);
    assert_eq!(request.attributes.border_pixmap, xlib::CopyFromParent as u64);
    assert_eq!(request.attributes.bit_gravity, xlib::ForgetGravity);
    assert_eq!(request.attributes.win_gravity, xlib::NorthWestGravity);
    assert_eq!(request.attributes.backing_store, xlib::NotUseful);
    assert_eq!(request.attributes.backing_planes, u64::MAX);
    assert_eq!(request.attributes.colormap, xlib::CopyFromParent as u64);
}

#[test]
fn window_builder_with_visual() {
    let request = WindowBuilder::new(0x50, true)
        .unwrap()
        .set_colormap_and_visual(CreatedColormap::create(0x70).unwrap(), visual(0x22, 32))
        .set_x_y(3, 4)
        .set_width_height(5, 6)
        .create_window_request();
    assert_eq!((request.x, request.y, request.width, request.height), (3, 4, 5, 6));
    assert_eq!(request.visual, Some(0x22));
    assert_eq!(request.depth, 32);
    assert_eq!(request.valuemask, xlib::CWColormap);
    assert_eq!(request.attributes.colormap, 0x70);
}

#[test]
fn built_window_keeps_colormap_and_level() {
    let window = WindowBuilder::new(0x50, true)
        .unwrap()
        .set_colormap_and_visual(CreatedColormap::create(0x70).unwrap(), visual(0x22, 32))
        .build_input_output_window(0x81)
        .unwrap();
    assert_eq!(window.window_id(), 0x81);
    assert!(window.top_level_window());
    assert_eq!(window.created_colormap().as_ref().unwrap().id(), 0x70);
    let window = built(0x82, false);
    assert!(!window.top_level_window());
    assert!(window.created_colormap().is_none());
    assert!(WindowBuilder::new(0x50, true).unwrap().build_input_output_window(0).is_err());
}

#[test]
fn screen_starts_a_top_level_window() {
    let screen = screen_with_root(0x50, 0);
    let builder = screen
        .create_window_builder(visual(0x22, 24), CreatedColormap::create(0x70).unwrap())
        .unwrap();
    let request = builder.create_window_request();
    assert_eq!(request.parent, 0x50);
    assert_eq!(request.visual, Some(0x22));
    assert_eq!(request.depth, 24);
    assert_eq!(request.attributes.colormap, 0x70);
    assert!(builder.build_input_output_window(0x83).unwrap().top_level_window());
    let no_root = screen_with_root(0, 0);
    assert!(no_root
        .create_window_builder(visual(0x22, 24), CreatedColormap::create(0x70).unwrap())
        .is_err());
}

#[test]
fn restacking_without_sibling() {
    let request = built(0x81, false).set_stack_mode(StackMode::Above);
    assert_eq!(request.window, 0x81);
    assert_eq!(request.value_mask, xlib::CWStackMode as u32);
    assert_eq!(
        request.changes,
        XWindowChanges {
            x: 0,
            y: 0,
            width: 1,
            height: 1,
            border_width: 0,
            sibling: 0,
            stack_mode: xlib::Above,
        }
    );
}

#[test]
fn restacking_with_sibling() {
    let sibling = built(0x82, false);
    let request = built(0x81, false).set_sibling_and_stack_mode(Some(&sibling), StackMode::BottomIf);
    assert_eq!(request.window, 0x81);
    assert_eq!(request.value_mask, (xlib::CWSibling | xlib::CWStackMode) as u32);
    assert_eq!(request.changes.sibling, 0x82);
    assert_eq!(request.changes.stack_mode, xlib::BottomIf);
    assert_eq!((request.changes.width, request.changes.height), (1, 1));
    let request =
        built(0x81, false).set_sibling_and_stack_mode::<InputOutputWindow>(None, StackMode::TopIf);
    assert_eq!(request.value_mask, xlib::CWStackMode as u32);
    assert_eq!(request.changes.stack_mode, xlib::TopIf);
}

#[test]
fn restacking_a_top_level_window() {
    let screen = screen_with_root(0x50, 3);
    let window = built(0x81, true);
    let request = window.set_stack_mode_top_level_window(&screen, StackMode::Below);
    assert_eq!(request.window, 0x81);
    assert_eq!(request.screen_number, 3);
    assert_eq!(request.value_mask, xlib::CWStackMode as u32);
    assert_eq!(request.changes.stack_mode, xlib::Below);
    assert_eq!(request.changes.sibling, 0);
    let sibling = built(0x82, true);
    let request = window.set_sibling_and_stack_mode_top_level_window(
        &screen,
        Some(&sibling),
        StackMode::Opposite,
    );
    assert_eq!(request.value_mask, 0x60);
    assert_eq!(request.changes.sibling, 0x82);
    assert_eq!(request.changes.stack_mode, xlib::Opposite);
    assert_eq!(request.screen_number, 3);
}

#[test]
fn iconify_and_withdraw_read_the_status() {
    let window = built(0x81, true);
    assert_eq!(window.iconify(1), Ok(()));
    assert_eq!(window.iconify(0), Err(()));
    assert_eq!(window.withdraw(1), Ok(()));
    assert_eq!(window.withdraw(0), Err(()));
}
