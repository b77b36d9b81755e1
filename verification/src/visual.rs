//! Visuals: how pixel values become colors.

use vstd::prelude::*;

verus! {

/// Xlib's `VisualIDMask`: the flag that makes a search for visuals go by
/// identifier.
pub const VISUAL_ID_MASK: i64 = 0x0001;

/// The description of a visual.
#[derive(Debug, Clone, Copy, PartialEq, Eq, Structural)]
pub struct XVisualInfo {
    pub visualid: u64,
    pub screen: i32,
    pub depth: i32,
    pub class: i32,
    pub red_mask: u64,
    pub green_mask: u64,
    pub blue_mask: u64,
    pub colormap_size: i32,
    pub bits_per_rgb: i32,
}

/// The arguments of a search for visuals.
#[derive(Debug, Clone, Copy)]
pub struct VisualInfoRequest {
    /// The members of the template that a visual has to match.
    pub vinfo_mask: i64,
    pub template: XVisualInfo,
}

/// A visual that the server described.
#[derive(Debug)]
pub struct Visual {
    visual_info: XVisualInfo,
}

impl View for Visual {
    type V = XVisualInfo;

    closed spec fn view(&self) -> XVisualInfo {
        self.visual_info
    }
}

impl Visual {
    /// The search for the visual with the identifier `visual_id`: the
    /// template is zero but for the identifier, and only the identifier has
    /// to match.
    pub fn request(visual_id: u64) -> (r: VisualInfoRequest)
        ensures
            r.vinfo_mask == VISUAL_ID_MASK,
            r.template == (XVisualInfo {
                visualid: visual_id,
                screen: 0,
                depth: 0,
                class: 0,
                red_mask: 0,
                green_mask: 0,
                blue_mask: 0,
                colormap_size: 0,
                bits_per_rgb: 0,
            }),
    {
        let template = XVisualInfo {
            visualid: visual_id,
            screen: 0,
            depth: 0,
            class: 0,
            red_mask: 0,
            green_mask: 0,
            blue_mask: 0,
            colormap_size: 0,
            bits_per_rgb: 0,
        };
        VisualInfoRequest { vinfo_mask: VISUAL_ID_MASK, template }
    }

    /// The visual that a search found: the first of the list that came
    /// back, if a list came back.
    pub fn new(visual_info_list: Option<&[XVisualInfo]>) -> (r: Option<Self>)
        ensures
            r is Some <==> visual_info_list is Some && visual_info_list->Some_0@.len() > 0,
            r is Some ==> r->Some_0@ == visual_info_list->Some_0@[0],
    {
        match visual_info_list {
            None => None,
            Some(list) => if list.len() == 0 {
                None
            } else {
                Some(Self { visual_info: list[0] })
            },
        }
    }

    pub fn visual_id(&self) -> (r: u64)
        ensures
            r == self@.visualid,
    {
        self.visual_info.visualid
    }

    pub fn depth(&self) -> (r: i32)
        ensures
            r == self@.depth,
    {
        self.visual_info.depth
    }

    pub fn visual_info(&self) -> (r: &XVisualInfo)
        ensures
            *r == self@,
    {
        &self.visual_info
    }
}

} // verus!
