//! Colormaps.

use crate::screen::Screen;
use crate::visual::Visual;
use vstd::prelude::*;

verus! {

/// Xlib's `AllocNone`: a colormap is created without any entry allocated.
pub const ALLOC_NONE: i32 = 0;

/// Something that names a colormap.
pub trait ColormapID {
    /// The identifier, as contracts speak of it.
    spec fn spec_id(&self) -> u64;

    fn id(&self) -> (r: u64)
        ensures
            r == self.spec_id(),
    ;
}

/// The colormap that a screen came with. It is not this client's to free.
#[derive(Debug)]
pub struct DefaultColormap(u64);

impl DefaultColormap {
    /// The default colormap with the identifier `id`, unless `id` is zero.
    pub fn new(id: u64) -> (r: Option<Self>)
        ensures
            r is Some <==> id != 0,
            r is Some ==> r->Some_0.spec_id() == id,
    {
        if id == 0 {
            None
        } else {
            Some(DefaultColormap(id))
        }
    }
}

impl ColormapID for DefaultColormap {
    closed spec fn spec_id(&self) -> u64 {
        self.0
    }

    fn id(&self) -> (r: u64) {
        self.0
    }
}

/// The arguments of a request to create a colormap.
#[derive(Debug, Clone, Copy)]
pub struct CreateColormapRequest {
    /// A window of the screen that the colormap is for.
    pub window: u64,
    /// The identifier of the visual that the colormap is for.
    pub visual_id: u64,
    pub alloc: i32,
}

/// A colormap that this client created, and has to free.
#[derive(Debug)]
pub struct CreatedColormap {
    colormap: u64,
}

impl CreatedColormap {
    /// The request that creates a colormap for `visual` on `screen`, or an
    /// error if the screen has no root window.
    pub fn request(screen: &Screen, visual: &Visual) -> (r: Result<CreateColormapRequest, ()>)
        ensures
            r is Ok <==> screen@.root != 0,
            r is Ok ==> r->Ok_0.window == screen@.root && r->Ok_0.visual_id == visual@.visualid
                && r->Ok_0.alloc == ALLOC_NONE,
    {
        let root_window_id = match screen.root_window_id() {
            Some(id) => id,
            None => {
                return Err(());
            },
        };
        Ok(
            CreateColormapRequest {
                window: root_window_id,
                visual_id: visual.visual_id(),
                alloc: ALLOC_NONE,
            },
        )
    }

    /// Reads the identifier that a request to create a colormap returned.
    /// Zero means that none was created.
    pub fn create(colormap: u64) -> (r: Result<CreatedColormap, ()>)
        ensures
            r is Ok <==> colormap != 0,
            r is Ok ==> r->Ok_0.spec_id() == colormap,
    {
        if colormap == 0 {
            Err(())
        } else {
            Ok(Self { colormap })
        }
    }
}

impl ColormapID for CreatedColormap {
    closed spec fn spec_id(&self) -> u64 {
        self.colormap
    }

    fn id(&self) -> (r: u64) {
        self.colormap
    }
}

} // verus!
