//! Screens.

use crate::color::DefaultColormap;
use crate::error::{QueryError, QueryResult};
use crate::event::{send_event, ClientMessageEventCreator, EventCreator, EventMask, SendEventRequest};
use crate::utils::{nonzero_id, XLIB_FALSE, XLIB_TRUE};
use vstd::prelude::*;

verus! {

/// What Xlib knows of a screen.
#[derive(Debug, Clone, Copy, PartialEq, Eq, Structural)]
pub struct XScreen {
    pub screen_number: i32,
    /// The root window, or zero.
    pub root: u64,
    pub width: i32,
    pub height: i32,
    pub mwidth: i32,
    pub mheight: i32,
    pub root_depth: i32,
    /// The identifier of the default visual, or zero.
    pub root_visual: u64,
    /// The default colormap, or zero.
    pub cmap: u64,
    /// The number of entries of the default colormap.
    pub cells: i32,
    pub white_pixel: u64,
    pub black_pixel: u64,
    pub max_maps: i32,
    pub min_maps: i32,
    pub backing_store: i32,
    pub save_unders: i32,
}

/// A screen of a display.
#[derive(Debug)]
pub struct Screen {
    raw_screen: XScreen,
}

impl View for Screen {
    type V = XScreen;

    closed spec fn view(&self) -> XScreen {
        self.raw_screen
    }
}

/// Whether a screen keeps the contents of windows that are not visible.
#[derive(Debug, Clone, Copy, PartialEq, Eq, Structural)]
pub enum BackingStore {
    WhenMapped,
    NotUseful,
    Always,
}

impl BackingStore {
    /// The number of the answer in the protocol.
    pub open spec fn code(self) -> i32 {
        match self {
            BackingStore::NotUseful => 0,
            BackingStore::WhenMapped => 1,
            BackingStore::Always => 2,
        }
    }
}

impl Screen {
    pub fn new(raw_screen: XScreen) -> (r: Self)
        ensures
            r@ == raw_screen,
    {
        Self { raw_screen }
    }

    pub fn raw_screen(&self) -> (r: &XScreen)
        ensures
            *r == self@,
    {
        &self.raw_screen
    }

    pub fn black_pixel(&self) -> (r: u64)
        ensures
            r == self@.black_pixel,
    {
        self.raw_screen.black_pixel
    }

    pub fn white_pixel(&self) -> (r: u64)
        ensures
            r == self@.white_pixel,
    {
        self.raw_screen.white_pixel
    }

    pub fn colormap_cells(&self) -> (r: i32)
        ensures
            r == self@.cells,
    {
        self.raw_screen.cells
    }

    /// The default colormap, if the screen has one.
    pub fn default_colormap(&self) -> (r: Option<DefaultColormap>)
        ensures
            r is Some <==> self@.cmap != 0,
            r is Some ==> crate::color::ColormapID::spec_id(&r->Some_0) == self@.cmap,
    {
        DefaultColormap::new(self.raw_screen.cmap)
    }

    pub fn default_depth(&self) -> (r: i32)
        ensures
            r == self@.root_depth,
    {
        self.raw_screen.root_depth
    }

    /// The identifier of the default visual, if the screen has one.
    pub fn default_visual(&self) -> (r: Option<u64>)
        ensures
            r == if self@.root_visual == 0 { None } else { Some(self@.root_visual) },
    {
        nonzero_id(self.raw_screen.root_visual)
    }

    /// Whether the screen keeps the contents of windows that are not
    /// visible, or an error if its answer is none that the protocol knows.
    pub fn does_backing_store(&self) -> (r: QueryResult<BackingStore>)
        ensures
            r is Ok <==> 0 <= self@.backing_store <= 2,
            r is Ok ==> r->Ok_0.code() == self@.backing_store,
    {
        let result = match self.raw_screen.backing_store {
            1 => BackingStore::WhenMapped,
            0 => BackingStore::NotUseful,
            2 => BackingStore::Always,
            _ => {
                return Err(QueryError::UnknownEnumValue);
            },
        };
        Ok(result)
    }

    /// Whether the screen keeps what windows cover.
    pub fn does_save_unders(&self) -> (r: bool)
        ensures
            r <==> self@.save_unders == XLIB_TRUE,
    {
        self.raw_screen.save_unders == XLIB_TRUE
    }

    pub fn screen_number(&self) -> (r: i32)
        ensures
            r == self@.screen_number,
    {
        self.raw_screen.screen_number
    }

    pub fn width_in_pixels(&self) -> (r: i32)
        ensures
            r == self@.width,
    {
        self.raw_screen.width
    }

    pub fn height_in_pixels(&self) -> (r: i32)
        ensures
            r == self@.height,
    {
        self.raw_screen.height
    }

    pub fn width_in_millimeters(&self) -> (r: i32)
        ensures
            r == self@.mwidth,
    {
        self.raw_screen.mwidth
    }

    pub fn height_in_millimeters(&self) -> (r: i32)
        ensures
            r == self@.mheight,
    {
        self.raw_screen.mheight
    }

    pub fn max_colormap_count(&self) -> (r: i32)
        ensures
            r == self@.max_maps,
    {
        self.raw_screen.max_maps
    }

    pub fn min_colormap_count(&self) -> (r: i32)
        ensures
            r == self@.min_maps,
    {
        self.raw_screen.min_maps
    }

    pub fn planes(&self) -> (r: i32)
        ensures
            r == self@.root_depth,
    {
        self.raw_screen.root_depth
    }

    /// The root window, if the screen has one.
    pub fn root_window_id(&self) -> (r: Option<u64>)
        ensures
            r == if self@.root == 0 { None } else { Some(self@.root) },
    {
        nonzero_id(self.raw_screen.root)
    }

    /// Makes the request that sends a client message to the root window,
    /// as the Extended Window Manager Hints ask for it: not propagated, to
    /// the clients that select substructure notification or redirection.
    ///
    /// Returns an error if the screen has no root window.
    pub fn send_ewmh_client_message_event(
        &self,
        client_message_event: &mut ClientMessageEventCreator,
    ) -> (r: Result<SendEventRequest, ()>)
        ensures
            r is Ok <==> self@.root != 0,
            final(client_message_event).event() == old(client_message_event).event(),
            r is Ok ==> {
                &&& r->Ok_0.window == self@.root
                &&& r->Ok_0.propagate == XLIB_FALSE
                &&& r->Ok_0.event_mask == EventMask::SUBSTRUCTURE_NOTIFY
                    | EventMask::SUBSTRUCTURE_REDIRECT
                &&& r->Ok_0.event == old(client_message_event).event()
            },
    {
        let window_id = match self.root_window_id() {
            Some(id) => id,
            None => {
                return Err(());
            },
        };
        let event_mask = EventMask::from_bits_truncate(
            EventMask::SUBSTRUCTURE_NOTIFY | EventMask::SUBSTRUCTURE_REDIRECT,
        );
        assert(EventMask::is_valid(
            EventMask::SUBSTRUCTURE_NOTIFY | EventMask::SUBSTRUCTURE_REDIRECT,
        )) by (bit_vector);
        Ok(send_event(window_id, false, event_mask, client_message_event))
    }
}

} // verus!
