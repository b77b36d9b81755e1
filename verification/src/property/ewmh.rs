//! Extended Window Manager Hints 1.3 properties.

use crate::event::{
    new_client_message, ClientMessageEventCreator, EventCreator, XClientMessageEvent, XEvent,
};
use crate::utils::{Atom, AtomName};
use crate::window::input_output::TopLevelInputOutputWindow;
use crate::window::Window;
use vstd::prelude::*;

verus! {

/// The action of a `_NET_WM_STATE` message that toggles a property.
pub const NET_WM_STATE_TOGGLE: i64 = 2;

/// The source indication of a `_NET_WM_STATE` message that stems from a
/// direct user action.
pub const SOURCE_USER_ACTION: i64 = 2;

/// Handler for `_NET_WM_STATE`.
#[derive(Debug)]
pub struct NetWmStateHandler {
    event: ClientMessageEventCreator,
    fullscreen: Atom,
    net_wm_state: Atom,
}

impl NetWmStateHandler {
    /// The atom `_NET_WM_STATE_FULLSCREEN`, as contracts speak of it.
    pub closed spec fn fullscreen(&self) -> Atom {
        self.fullscreen
    }

    /// The atom `_NET_WM_STATE`, as contracts speak of it.
    pub closed spec fn net_wm_state(&self) -> Atom {
        self.net_wm_state
    }

    /// The message that the handler holds, as contracts speak of it.
    pub closed spec fn message(&self) -> XEvent {
        self.event.event()
    }

    /// The name of the first atom that `new` takes.
    pub fn fullscreen_atom_name() -> (r: AtomName)
        ensures
            r@ == "_NET_WM_STATE_FULLSCREEN"@,
    {
        let name = "_NET_WM_STATE_FULLSCREEN".to_owned();
        proof {
            reveal_strlit("_NET_WM_STATE_FULLSCREEN");
            assert(crate::utils::is_atom_name(name@));
        }
        match AtomName::new(name) {
            Ok(atom_name) => atom_name,
            Err(_) => vstd::pervasive::unreached(),
        }
    }

    /// The name of the second atom that `new` takes.
    pub fn net_wm_state_atom_name() -> (r: AtomName)
        ensures
            r@ == "_NET_WM_STATE"@,
    {
        let name = "_NET_WM_STATE".to_owned();
        proof {
            reveal_strlit("_NET_WM_STATE");
            assert(crate::utils::is_atom_name(name@));
        }
        match AtomName::new(name) {
            Ok(atom_name) => atom_name,
            Err(_) => vstd::pervasive::unreached(),
        }
    }

    /// Makes a handler of the identifiers of the atoms
    /// `_NET_WM_STATE_FULLSCREEN` and `_NET_WM_STATE`. The message that it
    /// holds is a new client message.
    ///
    /// Returns an error if one of them is zero: the atom could not be had.
    pub fn new(fullscreen_id: u64, net_wm_state_id: u64) -> (r: Result<Self, ()>)
        ensures
            r is Ok <==> fullscreen_id != 0 && net_wm_state_id != 0,
            r is Ok ==> {
                &&& r->Ok_0.fullscreen()@ == fullscreen_id
                &&& r->Ok_0.net_wm_state()@ == net_wm_state_id
                &&& r->Ok_0.message() == new_client_message()
            },
    {
        let fullscreen = Atom::new(fullscreen_id)?;
        let net_wm_state = Atom::new(net_wm_state_id)?;
        Ok(Self { fullscreen, event: ClientMessageEventCreator::new(), net_wm_state })
    }

    /// `_NET_WM_STATE_FULLSCREEN`
    pub fn fullscreen_atom(&self) -> (r: Atom)
        ensures
            r == self.fullscreen(),
    {
        self.fullscreen
    }

    /// Prepares the client message that toggles the fullscreen property of
    /// `window`.
    ///
    /// The message is a `_NET_WM_STATE` message of long integers to
    /// `window`: toggle, the fullscreen atom, no second property, direct
    /// user action, and zero. The rest of the event, its type among it, is
    /// left as it is.
    pub fn toggle_fullscreen(&mut self, window: &TopLevelInputOutputWindow) -> (r:
        &mut ClientMessageEventCreator)
        ensures
            r.event().client_message == (XClientMessageEvent {
                message_type: old(self).net_wm_state()@,
                window: window.id(),
                format: 32,
                data: r.event().client_message.data,
                ..old(self).message().client_message
            }),
            r.event().client_message.data@ == seq![
                NET_WM_STATE_TOGGLE,
                old(self).fullscreen()@ as i64,
                0i64,
                SOURCE_USER_ACTION,
                0i64,
            ],
            r.event() == (XEvent {
                client_message: r.event().client_message,
                ..old(self).message()
            }),
            final(self).fullscreen() == old(self).fullscreen(),
            final(self).net_wm_state() == old(self).net_wm_state(),
            final(self).message() == final(r).event(),
    {
        let fullscreen_atom = #[verifier::truncate] (self.fullscreen_atom().atom_id() as i64);
        let net_wm_state = self.net_wm_state.atom_id();
        let data: [i64; 5] = [NET_WM_STATE_TOGGLE, fullscreen_atom, 0, SOURCE_USER_ACTION, 0];
        assert(data@ =~= seq![
            NET_WM_STATE_TOGGLE,
            fullscreen_atom,
            0i64,
            SOURCE_USER_ACTION,
            0i64,
        ]);
        {
            let event = self.event.client_message_mut();
            event.message_type = net_wm_state;
            event.window = window.window_id();
            event.format = 32;
            event.data = data;
        }
        &mut self.event
    }
}

} // verus!
