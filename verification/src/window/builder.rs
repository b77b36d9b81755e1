//! Windows with any parent, top level or not.

use crate::color::{ColormapID, CreatedColormap};
use crate::screen::Screen;
use crate::utils::{status_to_result, XLIB_NONE};
use crate::visual::{Visual, XVisualInfo};
use crate::window::attribute::{default_attributes, AttributeMask, XSetWindowAttributes, COPY_FROM_PARENT};
use crate::window::input_output::{
    CreateWindowRequest, WindowSize, DEFAULT_HEIGHT, DEFAULT_WIDTH, INPUT_OUTPUT,
};
use crate::window::{
    lemma_window_changes_flags_are_valid, ReconfigureRequest, StackMode, WindowChangesMask,
    XWindowChanges,
};
use vstd::prelude::*;

verus! {

/// Something that names a window.
pub trait WindowID {
    /// The identifier, as contracts speak of it.
    spec fn spec_window_id(&self) -> u64;

    fn window_id(&self) -> (r: u64)
        ensures
            r == self.spec_window_id(),
    ;
}

/// Collects what a window is created with.
#[derive(Debug)]
pub struct WindowBuilder {
    attributes: XSetWindowAttributes,
    colormap_and_visual: Option<(CreatedColormap, Visual)>,
    parent_window_id: u64,
    x: i32,
    y: i32,
    size: WindowSize,
    top_level_window: bool,
}

impl WindowBuilder {
    /// The parent of the window to be, which is not zero.
    pub closed spec fn parent(&self) -> u64 {
        self.parent_window_id
    }

    /// Whether the parent is a root window.
    pub closed spec fn is_top_level(&self) -> bool {
        self.top_level_window
    }

    /// Where the window to be stands in its parent.
    pub closed spec fn position(&self) -> (i32, i32) {
        (self.x, self.y)
    }

    /// The width and the height of the window to be.
    pub closed spec fn size(&self) -> (u32, u32) {
        (self.size.spec_width(), self.size.spec_height())
    }

    /// The visual of the window to be, unless it is that of its parent.
    pub closed spec fn visual(&self) -> Option<XVisualInfo> {
        match self.colormap_and_visual {
            Some((_, visual)) => Some(visual@),
            None => None,
        }
    }

    /// The colormap that was created for the window to be, if any.
    pub closed spec fn owned_colormap(&self) -> Option<CreatedColormap> {
        match self.colormap_and_visual {
            Some((colormap, _)) => Some(colormap),
            None => None,
        }
    }

    /// The attributes of the window to be.
    pub closed spec fn attributes(&self) -> XSetWindowAttributes {
        self.attributes
    }

    /// Starts a window in the parent `parent_window_id`, at the origin, 640
    /// wide and 480 high, with the visual of its parent and the attributes
    /// that Xlib takes where none is named.
    ///
    /// Returns an error if the parent is zero.
    pub fn new(parent_window_id: u64, top_level_window: bool) -> (r: Result<Self, ()>)
        ensures
            r is Ok <==> parent_window_id != 0,
            r is Ok ==> {
                let b = r->Ok_0;
                &&& b.parent() == parent_window_id
                &&& b.is_top_level() == top_level_window
                &&& b.position() == (0i32, 0i32)
                &&& b.size() == (DEFAULT_WIDTH, DEFAULT_HEIGHT)
                &&& b.visual() is None
                &&& b.owned_colormap() is None
                &&& b.attributes() == default_attributes()
            },
    {
        if parent_window_id == 0 {
            return Err(());
        }
        let attributes = XSetWindowAttributes {
            background_pixmap: XLIB_NONE,
            background_pixel: 0,
            border_pixmap: COPY_FROM_PARENT,
            border_pixel: 0,
            bit_gravity: 0,
            win_gravity: 1,
            backing_store: 0,
            backing_planes: u64::MAX,
            backing_pixel: 0,
            save_under: 0,
            event_mask: 0,
            do_not_propagate_mask: 0,
            override_redirect: 0,
            colormap: COPY_FROM_PARENT,
            cursor: XLIB_NONE,
        };
        Ok(
            Self {
                attributes,
                colormap_and_visual: None,
                parent_window_id,
                x: 0,
                y: 0,
                size: WindowSize::new(DEFAULT_WIDTH, DEFAULT_HEIGHT),
                top_level_window,
            },
        )
    }

    /// Gives the window to be a visual of its own, and the colormap that
    /// was created for that visual.
    pub fn set_colormap_and_visual(self, colormap: CreatedColormap, visual: Visual) -> (r: Self)
        ensures
            r.attributes() == (XSetWindowAttributes {
                colormap: colormap.spec_id(),
                ..self.attributes()
            }),
            r.owned_colormap() == Some(colormap),
            r.visual() == Some(visual@),
            r.parent() == self.parent(),
            r.is_top_level() == self.is_top_level(),
            r.position() == self.position(),
            r.size() == self.size(),
    {
        let mut r = self;
        r.attributes.colormap = colormap.id();
        r.colormap_and_visual = Some((colormap, visual));
        r
    }

    /// Default values: x = 0, y = 0
    pub fn set_x_y(self, x: i32, y: i32) -> (r: Self)
        ensures
            r.position() == (x, y),
            r.parent() == self.parent(),
            r.is_top_level() == self.is_top_level(),
            r.size() == self.size(),
            r.visual() == self.visual(),
            r.owned_colormap() == self.owned_colormap(),
            r.attributes() == self.attributes(),
    {
        let mut r = self;
        r.x = x;
        r.y = y;
        r
    }

    /// Default values: width = 640, height = 480
    ///
    /// Neither the width nor the height may be zero.
    pub fn set_width_height(self, width: u32, height: u32) -> (r: Self)
        requires
            width != 0,
            height != 0,
        ensures
            r.size() == (width, height),
            r.parent() == self.parent(),
            r.is_top_level() == self.is_top_level(),
            r.position() == self.position(),
            r.visual() == self.visual(),
            r.owned_colormap() == self.owned_colormap(),
            r.attributes() == self.attributes(),
    {
        let mut r = self;
        r.size = WindowSize::new(width, height);
        r
    }

    /// The request that creates the window.
    ///
    /// The window is an `InputOutput` window without a border. With a
    /// visual of its own it has the depth of that visual, and of its
    /// attributes the colormap counts; else it has the depth and the
    /// visual of its parent, and none of its attributes counts.
    pub fn create_window_request(&self) -> (r: CreateWindowRequest)
        ensures
            r.parent == self.parent(),
            (r.x, r.y) == self.position(),
            (r.width, r.height) == self.size(),
            r.width != 0 && r.height != 0,
            r.border_width == 0,
            r.class == INPUT_OUTPUT,
            match self.visual() {
                Some(visual) => {
                    &&& r.visual == Some(visual.visualid)
                    &&& r.depth == visual.depth
                    &&& r.valuemask == AttributeMask::COLORMAP
                },
                None => r.visual is None && r.depth == 0 && r.valuemask == 0,
            },
            r.attributes == self.attributes(),
    {
        let (valuemask, visual, depth) = match &self.colormap_and_visual {
            Some((_, visual)) => (AttributeMask::COLORMAP, Some(visual.visual_id()), visual.depth()),
            None => (0, None, 0),
        };
        CreateWindowRequest {
            parent: self.parent_window_id,
            x: self.x,
            y: self.y,
            width: self.size.width(),
            height: self.size.height(),
            border_width: 0,
            depth,
            class: INPUT_OUTPUT,
            visual,
            valuemask,
            attributes: self.attributes,
        }
    }

    /// The window that the request created, from the identifier that the
    /// request returned. Zero means that no window was created.
    pub fn build_input_output_window(self, window_id: u64) -> (r: Result<InputOutputWindow, ()>)
        ensures
            r is Ok <==> window_id != 0,
            r is Ok ==> {
                &&& r->Ok_0.spec_window_id() == window_id
                &&& r->Ok_0.owned_colormap() == self.owned_colormap()
                &&& r->Ok_0.is_top_level() == self.is_top_level()
            },
    {
        let colormap = match self.colormap_and_visual {
            Some((colormap, _)) => Some(colormap),
            None => None,
        };
        if window_id == 0 {
            Err(())
        } else {
            Ok(InputOutputWindow { colormap, window_id, top_level_window: self.top_level_window })
        }
    }
}

impl Screen {
    /// Starts a top level window on this screen with the visual `visual`
    /// and the colormap that was created for that visual.
    ///
    /// Returns an error if the screen has no root window.
    pub fn create_window_builder(&self, visual: Visual, created_colormap: CreatedColormap) -> (r: Result<
        WindowBuilder,
        (),
    >)
        ensures
            r is Ok <==> self@.root != 0,
            r is Ok ==> {
                let b = r->Ok_0;
                &&& b.parent() == self@.root
                &&& b.is_top_level()
                &&& b.position() == (0i32, 0i32)
                &&& b.size() == (DEFAULT_WIDTH, DEFAULT_HEIGHT)
                &&& b.visual() == Some(visual@)
                &&& b.owned_colormap() == Some(created_colormap)
                &&& b.attributes() == (XSetWindowAttributes {
                    colormap: created_colormap.spec_id(),
                    ..default_attributes()
                })
            },
    {
        let root = match self.root_window_id() {
            Some(id) => id,
            None => 0,
        };
        let window_builder = WindowBuilder::new(root, true)?.set_colormap_and_visual(
            created_colormap,
            visual,
        );
        Ok(window_builder)
    }
}

/// The arguments of a request to configure a window.
#[derive(Debug, Clone, Copy)]
pub struct ConfigureRequest {
    pub window: u64,
    /// The members of `changes` that count.
    pub value_mask: u32,
    pub changes: XWindowChanges,
}

/// A window that can be drawn to.
#[derive(Debug)]
pub struct InputOutputWindow {
    colormap: Option<CreatedColormap>,
    window_id: u64,
    top_level_window: bool,
}

/// What a request to restack a window carries: the sibling and the mode
/// count if there is a sibling, the mode alone if there is none. The
/// members that do not count are a position at the origin, a width and a
/// height of one, and no border.
pub open spec fn stack_changes(sibling: Option<u64>, stack_mode: StackMode) -> (u32, XWindowChanges) {
    (
        match sibling {
            Some(_) => WindowChangesMask::SIBLING | WindowChangesMask::STACK_MODE,
            None => WindowChangesMask::STACK_MODE,
        },
        XWindowChanges {
            x: 0,
            y: 0,
            width: 1,
            height: 1,
            border_width: 0,
            sibling: match sibling {
                Some(id) => id,
                None => 0,
            },
            stack_mode: stack_mode.code(),
        },
    )
}

fn make_stack_changes(sibling: Option<u64>, stack_mode: StackMode) -> (r: (u32, XWindowChanges))
    ensures
        r == stack_changes(sibling, stack_mode),
        WindowChangesMask::is_valid(r.0),
{
    let (sibling, configure_mask) = match sibling {
        Some(id) => (id, WindowChangesMask::SIBLING | WindowChangesMask::STACK_MODE),
        None => (0, WindowChangesMask::STACK_MODE),
    };
    proof {
        lemma_window_changes_flags_are_valid();
    }
    let changes = XWindowChanges {
        x: 0,
        y: 0,
        width: 1,
        height: 1,
        border_width: 0,
        sibling,
        stack_mode: stack_mode.to_xlib_stack_mode(),
    };
    (configure_mask, changes)
}

impl InputOutputWindow {
    /// The colormap that was created for the window, if any.
    pub closed spec fn owned_colormap(&self) -> Option<CreatedColormap> {
        self.colormap
    }

    /// Whether the parent of the window is a root window.
    pub closed spec fn is_top_level(&self) -> bool {
        self.top_level_window
    }

    /// Whether the parent of the window is a root window.
    pub fn top_level_window(&self) -> (r: bool)
        ensures
            r == self.is_top_level(),
    {
        self.top_level_window
    }

    /// The colormap that was created for the window, and goes with it.
    pub fn created_colormap(&self) -> (r: &Option<CreatedColormap>)
        ensures
            *r == self.owned_colormap(),
    {
        &self.colormap
    }

    /// The request that restacks the window.
    pub fn set_stack_mode(&self, stack_mode: StackMode) -> (r: ConfigureRequest)
        ensures
            r.window == self.spec_window_id(),
            (r.value_mask, r.changes) == stack_changes(None, stack_mode),
    {
        self.set_sibling_and_stack_mode::<InputOutputWindow>(None, stack_mode)
    }

    /// The request that restacks the window, with regard to `sibling` if
    /// there is one.
    ///
    /// The window in `sibling` must really be a sibling of this one.
    pub fn set_sibling_and_stack_mode<W: WindowID>(&self, sibling: Option<&W>, stack_mode: StackMode) -> (r:
        ConfigureRequest)
        ensures
            r.window == self.spec_window_id(),
            (r.value_mask, r.changes) == stack_changes(
                match sibling {
                    Some(w) => Some(w.spec_window_id()),
                    None => None,
                },
                stack_mode,
            ),
            WindowChangesMask::is_valid(r.value_mask),
    {
        let sibling = match sibling {
            Some(w) => Some(w.window_id()),
            None => None,
        };
        let (value_mask, changes) = make_stack_changes(sibling, stack_mode);
        ConfigureRequest { window: self.window_id, value_mask, changes }
    }

    /// Reads the status of a request to iconify the window, which must be
    /// a top level window.
    pub fn iconify(&self, status: i32) -> (r: Result<(), ()>)
        requires
            self.is_top_level(),
        ensures
            r is Ok <==> status != 0,
    {
        status_to_result(status)
    }

    /// Reads the status of a request to withdraw the window, which must be
    /// a top level window.
    pub fn withdraw(&self, status: i32) -> (r: Result<(), ()>)
        requires
            self.is_top_level(),
        ensures
            r is Ok <==> status != 0,
    {
        status_to_result(status)
    }

    /// The request that restacks the window, which must be a top level
    /// window, through the window manager of `screen`.
    pub fn set_stack_mode_top_level_window(&self, screen: &Screen, stack_mode: StackMode) -> (r:
        ReconfigureRequest)
        requires
            self.is_top_level(),
        ensures
            r.window == self.spec_window_id(),
            r.screen_number == screen@.screen_number,
            (r.value_mask, r.changes) == stack_changes(None, stack_mode),
    {
        self.set_sibling_and_stack_mode_top_level_window::<InputOutputWindow>(
            screen,
            None,
            stack_mode,
        )
    }

    /// The request that restacks the window, which must be a top level
    /// window, through the window manager of `screen`, with regard to
    /// `sibling` if there is one.
    ///
    /// The window in `sibling` must really be a sibling of this one.
    pub fn set_sibling_and_stack_mode_top_level_window<W: WindowID>(
        &self,
        screen: &Screen,
        sibling: Option<&W>,
        stack_mode: StackMode,
    ) -> (r: ReconfigureRequest)
        requires
            self.is_top_level(),
        ensures
            r.window == self.spec_window_id(),
            r.screen_number == screen@.screen_number,
            (r.value_mask, r.changes) == stack_changes(
                match sibling {
                    Some(w) => Some(w.spec_window_id()),
                    None => None,
                },
                stack_mode,
            ),
            WindowChangesMask::is_valid(r.value_mask),
    {
        let sibling = match sibling {
            Some(w) => Some(w.window_id()),
            None => None,
        };
        let (value_mask, changes) = make_stack_changes(sibling, stack_mode);
        ReconfigureRequest {
            window: self.window_id,
            screen_number: screen.screen_number(),
            value_mask,
            changes,
        }
    }
}

impl WindowID for InputOutputWindow {
    closed spec fn spec_window_id(&self) -> u64 {
        self.window_id
    }

    fn window_id(&self) -> (r: u64) {
        self.window_id
    }
}

} // verus!
