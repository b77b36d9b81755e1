//! Windows that can be drawn to.

use crate::color::{ColormapID, CreatedColormap};
use crate::screen::Screen;
use crate::utils::status_to_result;
use crate::visual::{Visual, XVisualInfo};
use crate::window::attribute::{
    default_attributes, AttributeMask, Colormap, CommonAttributes, GetAndSetAttributes,
    InputOutputWindowAttributes, WindowAttributes, XSetWindowAttributes, COPY_FROM_PARENT,
};
use crate::window::{Selection, Window, WindowProperties};
use vstd::prelude::*;

verus! {

/// Xlib's `InputOutput`: the class of the windows that can be drawn to.
pub const INPUT_OUTPUT: u32 = 1;

/// The width that a window gets where none is set.
pub const DEFAULT_WIDTH: u32 = 640;

/// The height that a window gets where none is set.
pub const DEFAULT_HEIGHT: u32 = 480;

/// Marks a builder of top level windows.
#[derive(Debug)]
pub struct BuildTopLevelWindow;

/// The visual of a window to be.
#[derive(Debug)]
pub enum WindowVisual {
    Visual(Visual),
    CopyFromParent,
}

impl vstd::std_specs::convert::FromSpecImpl<Visual> for WindowVisual {
    open spec fn obeys_from_spec() -> bool {
        true
    }

    open spec fn from_spec(visual: Visual) -> Self {
        WindowVisual::Visual(visual)
    }
}

impl From<Visual> for WindowVisual {
    fn from(visual: Visual) -> (r: Self) {
        WindowVisual::Visual(visual)
    }
}

/// A width and a height, neither of them zero.
#[derive(Debug, Clone, Copy)]
pub struct WindowSize {
    width: u32,
    height: u32,
}

impl WindowSize {
    #[verifier::type_invariant]
    spec fn well_formed(&self) -> bool {
        self.width != 0 && self.height != 0
    }

    pub closed spec fn spec_width(&self) -> u32 {
        self.width
    }

    pub closed spec fn spec_height(&self) -> u32 {
        self.height
    }

    pub fn new(width: u32, height: u32) -> (r: Self)
        requires
            width != 0,
            height != 0,
        ensures
            r.spec_width() == width,
            r.spec_height() == height,
    {
        Self { width, height }
    }

    pub fn width(&self) -> (r: u32)
        ensures
            r == self.spec_width(),
            r != 0,
    {
        proof {
            use_type_invariant(self);
        }
        self.width
    }

    pub fn height(&self) -> (r: u32)
        ensures
            r == self.spec_height(),
            r != 0,
    {
        proof {
            use_type_invariant(self);
        }
        self.height
    }
}

/// The arguments of a request to create a window.
#[derive(Debug, Clone, Copy)]
pub struct CreateWindowRequest {
    pub parent: u64,
    pub x: i32,
    pub y: i32,
    pub width: u32,
    pub height: u32,
    pub border_width: u32,
    /// The depth of the window, or zero for that of its parent.
    pub depth: i32,
    pub class: u32,
    /// The identifier of the visual, or `None` for that of the parent.
    pub visual: Option<u64>,
    /// The members of `attributes` that count.
    pub valuemask: u64,
    pub attributes: XSetWindowAttributes,
}

/// Collects what a window is created with.
#[derive(Debug)]
pub struct InputOutputWindowBuilder<T> {
    attributes: WindowAttributes,
    colormap_and_visual: Option<(CreatedColormap, Visual)>,
    parent_window_id: u64,
    x: i32,
    y: i32,
    size: WindowSize,
    builder: T,
}

impl<T> InputOutputWindowBuilder<T> {
    /// The parent of the window to be.
    pub closed spec fn parent(&self) -> u64 {
        self.parent_window_id
    }

    /// Where the window to be stands in its parent.
    pub closed spec fn position(&self) -> (i32, i32) {
        (self.x, self.y)
    }

    /// The width and the height of the window to be.
    pub closed spec fn size(&self) -> (u32, u32) {
        (self.size.spec_width(), self.size.spec_height())
    }

    /// The visual of the window to be, unless it is that of its parent.
    pub closed spec fn visual(&self) -> Option<XVisualInfo> {
        match self.colormap_and_visual {
            Some((_, visual)) => Some(visual@),
            None => None,
        }
    }

    /// The colormap that was created for the window to be, if any.
    pub closed spec fn owned_colormap(&self) -> Option<CreatedColormap> {
        match self.colormap_and_visual {
            Some((colormap, _)) => Some(colormap),
            None => None,
        }
    }

    /// Default values: x = 0, y = 0
    pub fn set_x_y(self, x: i32, y: i32) -> (r: Self)
        ensures
            r.position() == (x, y),
            r.parent() == self.parent(),
            r.size() == self.size(),
            r.visual() == self.visual(),
            r.owned_colormap() == self.owned_colormap(),
            r.spec_attributes() == self.spec_attributes(),
    {
        let mut builder = self;
        builder.x = x;
        builder.y = y;
        builder
    }

    /// Default values: width = 640, height = 480
    ///
    /// Neither the width nor the height may be zero.
    pub fn set_width_height(self, width: u32, height: u32) -> (r: Self)
        requires
            width != 0,
            height != 0,
        ensures
            r.size() == (width, height),
            r.parent() == self.parent(),
            r.position() == self.position(),
            r.visual() == self.visual(),
            r.owned_colormap() == self.owned_colormap(),
            r.spec_attributes() == self.spec_attributes(),
    {
        let mut builder = self;
        builder.size = WindowSize::new(width, height);
        builder
    }

    /// The request that creates the window.
    ///
    /// The window is an `InputOutput` window without a border. It has the
    /// depth and the visual that the builder was made with, or those of its
    /// parent. Of the attributes, those that were set count.
    pub fn create_window_request(&self) -> (r: CreateWindowRequest)
        ensures
            r.parent == self.parent(),
            (r.x, r.y) == self.position(),
            (r.width, r.height) == self.size(),
            r.width != 0 && r.height != 0,
            r.border_width == 0,
            r.class == INPUT_OUTPUT,
            match self.visual() {
                Some(visual) => r.visual == Some(visual.visualid) && r.depth == visual.depth,
                None => r.visual is None && r.depth == 0,
            },
            r.valuemask == self.spec_attributes().selected(),
            AttributeMask::is_valid(r.valuemask),
            r.attributes == self.spec_attributes().raw(),
    {
        let (visual, depth) = match &self.colormap_and_visual {
            Some((_, visual)) => (Some(visual.visual_id()), visual.depth()),
            None => (None, 0),
        };
        CreateWindowRequest {
            parent: self.parent_window_id,
            x: self.x,
            y: self.y,
            width: self.size.width(),
            height: self.size.height(),
            border_width: 0,
            depth,
            class: INPUT_OUTPUT,
            visual,
            valuemask: self.attributes.selected_attributes().bits(),
            attributes: *self.attributes.xlib_attributes(),
        }
    }
}

impl<T> GetAndSetAttributes for InputOutputWindowBuilder<T> {
    closed spec fn spec_attributes(&self) -> WindowAttributes {
        self.attributes
    }

    closed spec fn with_attributes(&self, attributes: WindowAttributes) -> Self {
        InputOutputWindowBuilder { attributes, ..*self }
    }

    fn attributes(&self) -> (r: &WindowAttributes) {
        &self.attributes
    }

    fn attributes_mut(&mut self) -> (r: &mut WindowAttributes) {
        &mut self.attributes
    }
}

impl<T> InputOutputWindowAttributes for InputOutputWindowBuilder<T> {

}

impl<T> CommonAttributes for InputOutputWindowBuilder<T> {

}

/// Setting an attribute leaves the rest of a builder as it is.
pub proof fn lemma_attributes_are_apart<T>(
    builder: InputOutputWindowBuilder<T>,
    attributes: WindowAttributes,
)
    ensures
        builder.with_attributes(attributes).spec_attributes() == attributes,
        builder.with_attributes(attributes).parent() == builder.parent(),
        builder.with_attributes(attributes).position() == builder.position(),
        builder.with_attributes(attributes).size() == builder.size(),
        builder.with_attributes(attributes).visual() == builder.visual(),
        builder.with_attributes(attributes).owned_colormap() == builder.owned_colormap(),
{
}

impl InputOutputWindowBuilder<BuildTopLevelWindow> {
    /// Starts a window whose parent is the root window of `screen`.
    ///
    /// With a visual of its own the window needs a colormap of its own:
    /// `colormap` is the one that was created for that visual, or `None` if
    /// none could be created. With the visual of its parent the window
    /// takes no colormap, and `colormap` is dropped.
    ///
    /// Returns an error if the screen has no root window, or if a colormap
    /// is needed and there is none.
    pub fn new(screen: &Screen, window_visual: WindowVisual, colormap: Option<CreatedColormap>) -> (r:
        Result<Self, ()>)
        ensures
            r is Ok <==> screen@.root != 0 && (window_visual is Visual ==> colormap is Some),
            r is Ok ==> {
                let b = r->Ok_0;
                &&& b.parent() == screen@.root
                &&& b.position() == (0i32, 0i32)
                &&& b.size() == (DEFAULT_WIDTH, DEFAULT_HEIGHT)
                &&& match window_visual {
                    WindowVisual::Visual(visual) => {
                        &&& b.visual() == Some(visual@)
                        &&& b.owned_colormap() == colormap
                        &&& b.spec_attributes().raw() == (XSetWindowAttributes {
                            colormap: colormap->Some_0.spec_id(),
                            ..default_attributes()
                        })
                        &&& b.spec_attributes().selected() == AttributeMask::COLORMAP
                    },
                    WindowVisual::CopyFromParent => {
                        &&& b.visual() is None
                        &&& b.owned_colormap() is None
                        &&& b.spec_attributes().raw() == default_attributes()
                        &&& b.spec_attributes().selected() == 0
                    },
                }
            },
    {
        let parent_window_id = match screen.root_window_id() {
            Some(id) => id,
            None => {
                return Err(());
            },
        };
        let mut builder = Self {
            attributes: WindowAttributes::default(),
            colormap_and_visual: None,
            parent_window_id,
            x: 0,
            y: 0,
            size: WindowSize::new(DEFAULT_WIDTH, DEFAULT_HEIGHT),
            builder: BuildTopLevelWindow,
        };
        if let WindowVisual::Visual(visual) = window_visual {
            let created_colormap = match colormap {
                Some(created_colormap) => created_colormap,
                None => {
                    return Err(());
                },
            };
            builder.set_colormap(Colormap::Colormap(created_colormap.id()));
            builder.colormap_and_visual = Some((created_colormap, visual));
            assert(0u64 | AttributeMask::COLORMAP == AttributeMask::COLORMAP) by (bit_vector);
        }
        Ok(builder)
    }

    /// The window that the request created, from the identifier that the
    /// request returned. Zero means that no window was created.
    pub fn build_input_output_window(self, window_id: u64) -> (r: Result<
        TopLevelInputOutputWindow,
        (),
    >)
        ensures
            r is Ok <==> window_id != 0,
            r is Ok ==> {
                &&& r->Ok_0.id() == window_id
                &&& r->Ok_0.owned_colormap() == self.owned_colormap()
                &&& r->Ok_0.attributes() == self.spec_attributes()
            },
    {
        let colormap = match self.colormap_and_visual {
            Some((colormap, _)) => Some(colormap),
            None => None,
        };
        if window_id == 0 {
            Err(())
        } else {
            Ok(TopLevelInputOutputWindow { colormap, window_id, attributes: self.attributes })
        }
    }
}

/// A window whose parent is a root window.
#[derive(Debug)]
pub struct TopLevelInputOutputWindow {
    colormap: Option<CreatedColormap>,
    window_id: u64,
    attributes: WindowAttributes,
}

impl TopLevelInputOutputWindow {
    /// The colormap that was created for the window, if any.
    pub closed spec fn owned_colormap(&self) -> Option<CreatedColormap> {
        self.colormap
    }

    /// The attributes that the window was created with.
    pub closed spec fn attributes(&self) -> WindowAttributes {
        self.attributes
    }

    /// The colormap that was created for the window, and goes with it.
    pub fn created_colormap(&self) -> (r: &Option<CreatedColormap>)
        ensures
            *r == self.owned_colormap(),
    {
        &self.colormap
    }

    /// Reads the status of a request to iconify the window.
    pub fn iconify(&mut self, status: i32) -> (r: Result<(), ()>)
        ensures
            r is Ok <==> status != 0,
            *final(self) == *old(self),
    {
        status_to_result(status)
    }

    /// Reads the status of a request to withdraw the window.
    pub fn withdraw(&mut self, status: i32) -> (r: Result<(), ()>)
        ensures
            r is Ok <==> status != 0,
            *final(self) == *old(self),
    {
        status_to_result(status)
    }
}

impl Window for TopLevelInputOutputWindow {
    closed spec fn id(&self) -> u64 {
        self.window_id
    }

    fn window_id(&self) -> (r: u64) {
        self.window_id
    }
}

impl WindowProperties for TopLevelInputOutputWindow {

}

impl Selection for TopLevelInputOutputWindow {

}

} // verus!
