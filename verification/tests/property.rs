use x11::xlib;
use x11_wrapper::event::EventCreator;
use x11_wrapper::property::ewmh::{NetWmStateHandler, NET_WM_STATE_TOGGLE, SOURCE_USER_ACTION};
use x11_wrapper::property::icccm::{
    check_string, AspectRatio, HintsConfigurator, NormalHintsConfigurator, SetClassPropertyError,
    TextProperty, WindowHintsFlags, WindowState, XSizeHints, XWMHints, P_ASPECT, P_BASE_SIZE,
    P_MAX_SIZE, P_MIN_SIZE, P_RESIZE_INC, P_WIN_GRAVITY, XA_STRING, XA_WM_CLASS,
    XA_WM_CLIENT_MACHINE, XA_WM_COMMAND, XA_WM_ICON_NAME, XA_WM_ICON_SIZE, XA_WM_NAME,
};
use x11_wrapper::protocol::{ProtocolHandlerDeleteWindow, Protocols};
use x11_wrapper::screen::{Screen, XScreen};
use x11_wrapper::utils::Atom;
use x11_wrapper::window::input_output::{
    InputOutputWindowBuilder, TopLevelInputOutputWindow, WindowVisual,
};
use x11_wrapper::window::{Property, Window};

fn window(window_id: u64) -> TopLevelInputOutputWindow {
    let screen = Screen::new(XScreen {
        screen_number: 0,
        root: 0x50,
        width: 1920,
        height: 1080,
        mwidth: 508,
        mheight: 285,
        root_depth: 24,
        root_visual: 0x21,
        cmap: 0x20,
        cells: 256,
        white_pixel: 0xff_ffff,
        black_pixel: 0,
        max_maps: 1,
        min_maps: 1,
        backing_store: 0,
        save_unders: 0,
    });
    InputOutputWindowBuilder::new(&screen, WindowVisual::CopyFromParent, None)
        .unwrap()
        .build_input_output_window(window_id)
        .unwrap()
}

fn delete_window_handler(atom_id: u64) -> ProtocolHandlerDeleteWindow {
    Protocols::new().enable_delete_window(atom_id).unwrap()
}

#[test]
fn predefined_atoms_are_those_of_xlib() {
    assert_eq!(XA_STRING, xlib::XA_STRING);
    assert_eq!(XA_WM_COMMAND, xlib::XA_WM_COMMAND);
    assert_eq!(XA_WM_CLIENT_MACHINE, xlib::XA_WM_CLIENT_MACHINE);
    assert_eq!(XA_WM_ICON_NAME, xlib::XA_WM_ICON_NAME);
    assert_eq!(XA_WM_ICON_SIZE, xlib::XA_WM_ICON_SIZE);
    assert_eq!(XA_WM_NAME, xlib::XA_WM_NAME);
    assert_eq!(XA_WM_CLASS, xlib::XA_WM_CLASS);
}

#[test]
fn text_properties_are_predefined_atoms() {
    assert_eq!(Atom::from(TextProperty::Name).atom_id(), xlib::XA_WM_NAME);
    assert_eq!(Atom::from(TextProperty::IconName).atom_id(), xlib::XA_WM_ICON_NAME);
    assert_eq!(Atom::from(TextProperty::Command).atom_id(), xlib::XA_WM_COMMAND);
    assert_eq!(Atom::from(TextProperty::ClientMachine).atom_id(), xlib::XA_WM_CLIENT_MACHINE);
    let atom: Atom = TextProperty::Name.into();
    assert_eq!(atom.atom_id(), 39);
}

#[test]
fn class_text_characters() {
    for text in ["xterm", "XTerm", "my app-2_b", "", " ", "-", "_", "azAZ09"] {
        assert_eq!(check_string(text), Ok(()), "{}", text);
    }
    for text in ["x.term", "a\0", "\0", "gr\u{fc}n", "a/b", "a\tb", "a\n", "a+b", "`", "{", "@"] {
        assert_eq!(check_string(text), Err(()), "{}", text);
    }
}

#[test]
fn class_property_is_two_c_strings() {
    let (window, change) =
        window(0x60).set_class("xterm".to_string(), "XTerm".to_string()).ok().unwrap();
    assert_eq!(window.window_id(), 0x60);
    assert_eq!(change.request.window, 0x60);
    assert_eq!(change.request.property, xlib::XA_WM_CLASS);
    assert_eq!(change.request.property_type, xlib::XA_STRING);
    assert_eq!(change.request.format, 8);
    assert_eq!(change.request.mode, xlib::PropModeReplace);
    assert_eq!(change.request.nelements, 12);
    match change.property {
        Property::Char(data) => {
            assert_eq!(data.data(), &b"xterm\0XTerm\0".to_vec());
            assert_eq!(data.property_type().atom_id(), xlib::XA_STRING);
        }
        other => panic!("{:?}", other),
    }
}

#[test]
fn class_property_of_empty_names() {
    let (_, change) = window(0x60).set_class(String::new(), String::new()).ok().unwrap();
    assert_eq!(change.request.nelements, 2);
    match change.property {
        Property::Char(data) => assert_eq!(data.data(), &vec![0, 0]),
        other => panic!("{:?}", other),
    }
    let (_, change) = window(0x60).set_class("a b".to_string(), String::new()).ok().unwrap();
    match change.property {
        Property::Char(data) => assert_eq!(data.data(), &b"a b\0\0".to_vec()),
        other => panic!("{:?}", other),
    }
}

#[test]
fn class_property_refuses_other_characters() {
    match window(0x60).set_class("x.term".to_string(), "XTerm".to_string()) {
        Err(SetClassPropertyError::UnknownCharacter(window)) => {
            assert_eq!(window.window_id(), 0x60)
        }
        other => panic!("{:?}", other.is_ok()),
    }
    match window(0x61).set_class("xterm".to_string(), "X\0Term".to_string()) {
        Err(SetClassPropertyError::UnknownCharacter(window)) => {
            assert_eq!(window.window_id(), 0x61)
        }
        other => panic!("{:?}", other.is_ok()),
    }
}

#[test]
fn icon_size_property_is_six_longs() {
    let change = window(0x60).set_icon_size(16, 17, 64, 65, 8, -1);
    assert_eq!(change.request.window, 0x60);
    assert_eq!(change.request.property, xlib::XA_WM_ICON_SIZE);
    assert_eq!(change.request.property_type, xlib::XA_WM_ICON_SIZE);
    assert_eq!(change.request.format, 32);
    assert_eq!(change.request.mode, xlib::PropModeReplace);
    assert_eq!(change.request.nelements, 6);
    match change.property {
        Property::Long(data) => {
            assert_eq!(data.data(), &vec![16, 17, 64, 65, 8, u32::MAX]);
            assert_eq!(data.property_type().atom_id(), xlib::XA_WM_ICON_SIZE);
        }
        other => panic!("{:?}", other),
    }
    match window(0x60).set_icon_size(i32::MIN, 0, 0, 0, 0, i32::MAX).property {
        Property::Long(data) => {
            assert_eq!(data.data(), &vec![0x8000_0000, 0, 0, 0, 0, 0x7fff_ffff])
        }
        other => panic!("{:?}", other),
    }
}

#[test]
fn set_protocols_hands_the_window_back() {
    assert_eq!(window(0x60).set_protocols(1).ok().unwrap().window_id(), 0x60);
    assert_eq!(window(0x61).set_protocols(0).err().unwrap().window_id(), 0x61);
}

#[test]
fn hints_flags_are_those_of_xlib() {
    let table = [
        (WindowHintsFlags::INPUT, xlib::InputHint),
        (WindowHintsFlags::STATE, xlib::StateHint),
        (WindowHintsFlags::ICON_PIXMAP, xlib::IconPixmapHint),
        (WindowHintsFlags::ICON_WINDOW, xlib::IconWindowHint),
        (WindowHintsFlags::ICON_POSITION, xlib::IconPositionHint),
        (WindowHintsFlags::ICON_MASK, xlib::IconMaskHint),
        (WindowHintsFlags::WINDOW_GROUP, xlib::WindowGroupHint),
        (WindowHintsFlags::URGENCY, xlib::XUrgencyHint),
    ];
    let mut all = 0;
    for (flag, hint) in table {
        assert_eq!(flag, hint as i64);
        all |= flag;
    }
    assert_eq!(all, WindowHintsFlags::ALL);
    assert_eq!(WindowHintsFlags::empty().with(0x3).with(0x80).bits(), 0x3);
    assert_eq!(WindowHintsFlags::empty().with(0x103).without(0x100).bits(), 0x3);
    assert_eq!(WindowHintsFlags::empty().without(0x100).bits(), 0);
}

#[test]
fn window_states_are_numbered_from_zero() {
    assert_eq!(WindowState::Withdrawn.to_xlib_state(), 0);
    assert_eq!(WindowState::Normal.to_xlib_state(), 1);
    assert_eq!(WindowState::Iconic.to_xlib_state(), 2);
}

#[test]
fn hints_need_the_structure() {
    assert_eq!(window(0x60).start_configuring_hints(false).err().unwrap().window_id(), 0x60);
    assert_eq!(HintsConfigurator::new(window(0x61), false).err().unwrap().window_id(), 0x61);
    assert_eq!(
        window(0x62).start_configuring_normal_hints(false).err().unwrap().window_id(),
        0x62
    );
    assert_eq!(NormalHintsConfigurator::new(window(0x63), false).err().unwrap().window_id(), 0x63);
}

#[test]
fn hints_start_zeroed() {
    let (window, hints) = window(0x60).start_configuring_hints(true).ok().unwrap().end();
    assert_eq!(window.window_id(), 0x60);
    assert_eq!(
        hints,
        XWMHints {
            flags: 0,
            input: 0,
            initial_state: 0,
            icon_pixmap: 0,
            icon_window: 0,
            icon_x: 0,
            icon_y: 0,
            icon_mask: 0,
            window_group: 0,
        }
    );
}

#[test]
fn hints_name_what_was_set() {
    let (window, hints) = window(0x60)
        .start_configuring_hints(true)
        .ok()
        .unwrap()
        .set_input(true)
        .set_initial_state(WindowState::Iconic)
        .set_icon_pixmap(0x71)
        .set_icon_window(0x72)
        .set_icon_position(-3, 4)
        .set_icon_mask(0x73)
        .set_window_group(0x74)
        .set_urgency(true)
        .end();
    assert_eq!(window.window_id(), 0x60);
    assert_eq!(
        hints,
        XWMHints {
            flags: xlib::AllHints | xlib::XUrgencyHint,
            input: xlib::True,
            initial_state: 2,
            icon_pixmap: 0x71,
            icon_window: 0x72,
            icon_x: -3,
            icon_y: 4,
            icon_mask: 0x73,
            window_group: 0x74,
        }
    );
}

#[test]
fn urgency_can_be_taken_back() {
    let configurator = HintsConfigurator::new(window(0x60), true).ok().unwrap();
    let (_, hints) = configurator.set_input(false).set_urgency(true).set_urgency(false).end();
    assert_eq!(hints.flags, xlib::InputHint);
    assert_eq!(hints.input, xlib::False);
    let configurator = HintsConfigurator::new(window(0x60), true).ok().unwrap();
    let (_, hints) = configurator.set_urgency(false).set_initial_state(WindowState::Normal).end();
    assert_eq!(hints.flags, xlib::StateHint);
    assert_eq!(hints.initial_state, 1);
}

#[test]
fn size_hint_flags_are_those_of_xlib() {
    assert_eq!(P_MIN_SIZE, xlib::PMinSize);
    assert_eq!(P_MAX_SIZE, xlib::PMaxSize);
    assert_eq!(P_RESIZE_INC, xlib::PResizeInc);
    assert_eq!(P_ASPECT, xlib::PAspect);
    assert_eq!(P_BASE_SIZE, xlib::PBaseSize);
    assert_eq!(P_WIN_GRAVITY, xlib::PWinGravity);
}

#[test]
fn normal_hints_start_zeroed() {
    let (window, hints) = window(0x60).start_configuring_normal_hints(true).ok().unwrap().end();
    assert_eq!(window.window_id(), 0x60);
    assert_eq!(hints.flags, 0);
    assert_eq!((hints.min_width, hints.max_height, hints.win_gravity), (0, 0, 0));
    assert_eq!(hints.min_aspect, AspectRatio { x: 0, y: 0 });
}

#[test]
fn normal_hints_name_what_was_set() {
    let (window, hints) = NormalHintsConfigurator::new(window(0x60), true)
        .ok()
        .unwrap()
        .set_min_window_size(640, 480)
        .set_max_window_size(1920, 1080)
        .set_resize_increments(8, 16)
        .set_min_and_max_aspect_ratios(4, 3, 16, 9)
        .set_base_size(2, 3)
        .set_win_gravity(xlib::CenterGravity)
        .end();
    assert_eq!(window.window_id(), 0x60);
    assert_eq!(
        hints,
        XSizeHints {
            flags: 0x3f0,
            min_width: 640,
            min_height: 480,
            max_width: 1920,
            max_height: 1080,
            width_inc: 8,
            height_inc: 16,
            min_aspect: AspectRatio { x: 4, y: 3 },
            max_aspect: AspectRatio { x: 16, y: 9 },
            base_width: 2,
            base_height: 3,
            win_gravity: xlib::CenterGravity,
        }
    );
    let (_, hints) = NormalHintsConfigurator::new(window, true)
        .ok()
        .unwrap()
        .set_min_window_size(1, 2)
        .set_min_window_size(3, 4)
        .end();
    assert_eq!(hints.flags, xlib::PMinSize);
    assert_eq!((hints.min_width, hints.min_height), (3, 4));
}

#[test]
fn net_wm_state_atom_names() {
    assert_eq!(NetWmStateHandler::fullscreen_atom_name().as_str(), "_NET_WM_STATE_FULLSCREEN");
    assert_eq!(NetWmStateHandler::net_wm_state_atom_name().as_str(), "_NET_WM_STATE");
}

#[test]
fn net_wm_state_handler_starts_with_a_new_client_message() {
    let mut handler = NetWmStateHandler::new(7, 9).unwrap();
    let window = window(0x60);
    let event = *handler.toggle_fullscreen(&window).raw_event_mut();
    assert_eq!(event.type_, xlib::ClientMessage);
    assert_eq!(event.client_message.type_, xlib::ClientMessage);
    assert_eq!((event.client_message.serial, event.client_message.send_event), (0, 0));
    assert_eq!(event.client_message.message_type, 9);
    assert_eq!(event.client_message.data, [2, 7, 0, 2, 0]);
    assert_eq!(event.key.keycode, 0);
    let again = *handler.toggle_fullscreen(&window).raw_event_mut();
    assert_eq!(again, event);
}

#[test]
fn net_wm_state_handler_needs_both_atoms() {
    assert!(NetWmStateHandler::new(0, 301).is_err());
    assert!(NetWmStateHandler::new(300, 0).is_err());
    assert!(NetWmStateHandler::new(0, 0).is_err());
    assert_eq!(NetWmStateHandler::new(300, 301).unwrap().fullscreen_atom().atom_id(), 300);
}

#[test]
fn toggle_fullscreen_message() {
    let mut handler = NetWmStateHandler::new(300, 301).unwrap();
    let window = window(0x60);
    let message = handler.toggle_fullscreen(&window);
    let event = *message.raw_event_mut();
    assert_eq!(event.type_, xlib::ClientMessage);
    assert_eq!(event.client_message.message_type, 301);
    assert_eq!(event.client_message.window, 0x60);
    assert_eq!(event.client_message.format, 32);
    assert_eq!(event.client_message.data, [2, 300, 0, 2, 0]);
    assert_eq!((NET_WM_STATE_TOGGLE, SOURCE_USER_ACTION), (2, 2));
    let other = self::window(0x61);
    let event = *handler.toggle_fullscreen(&other).raw_event_mut();
    assert_eq!(event.client_message.window, 0x61);
    assert_eq!(event.client_message.data, [2, 300, 0, 2, 0]);
    assert_eq!(handler.fullscreen_atom().atom_id(), 300);
}

#[test]
fn toggle_fullscreen_wraps_a_large_atom() {
    let mut handler = NetWmStateHandler::new(u64::MAX, 301).unwrap();
    let window = window(0x60);
    let event = *handler.toggle_fullscreen(&window).raw_event_mut();
    assert_eq!(event.client_message.data, [2, -1, 0, 2, 0]);
}

#[test]
fn delete_window_atom_name() {
    assert_eq!(Protocols::delete_window_atom_name().as_str(), "WM_DELETE_WINDOW");
}

#[test]
fn protocols_list_what_is_enabled() {
    assert_eq!(Protocols::new().protocol_atom_list().len(), 0);
    let mut protocols = Protocols::new();
    assert!(protocols.enable_delete_window(0).is_err());
    assert_eq!(protocols.protocol_atom_list().len(), 0);
    let mut protocols = Protocols::new();
    let _handler = protocols.enable_delete_window(400).unwrap();
    assert!(protocols.enable_delete_window(0).is_err());
    let list = protocols.protocol_atom_list();
    assert_eq!(list.len(), 1);
    assert_eq!(list.atoms()[0].atom_id(), 400);
    let mut protocols = Protocols::new();
    protocols.enable_delete_window(400).unwrap();
    protocols.enable_delete_window(401).unwrap();
    let list = protocols.protocol_atom_list();
    assert_eq!(list.len(), 1);
    assert_eq!(list.atoms()[0].atom_id(), 401);
}

#[test]
fn delete_window_message_is_recognized() {
    let handler = delete_window_handler(400);
    let mut handler_message = NetWmStateHandler::new(300, 301).unwrap();
    let window = window(0x60);
    let mut message = handler_message.toggle_fullscreen(&window).raw_event_mut().client_message;
    assert!(!handler.check_event(&message));
    message.data = [400, 0, 0, 0, 0];
    assert!(handler.check_event(&message));
    message.data = [400, 1, 2, 3, 4];
    assert!(handler.check_event(&message));
    message.format = 8;
    assert!(!handler.check_event(&message));
    message.format = 32;
    message.data = [0, 400, 0, 0, 0];
    assert!(!handler.check_event(&message));
    let handler = delete_window_handler(u64::MAX);
    message.data = [-1, 0, 0, 0, 0];
    assert!(handler.check_event(&message));
}
