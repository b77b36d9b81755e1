//! The optional protocols between a client and the window manager.

use crate::event::XClientMessageEvent;
use crate::utils::{is_atom_name, Atom, AtomList, AtomName};
use vstd::prelude::*;

verus! {

/// The protocols that a client takes part in, as the property
/// `WM_PROTOCOLS` of its windows names them.
#[derive(Debug)]
pub struct Protocols {
    delete_window: Option<Atom>,
}

impl View for Protocols {
    type V = Option<Atom>;

    closed spec fn view(&self) -> Option<Atom> {
        self.delete_window
    }
}

/// The name of the protocol by which the window manager asks a client to
/// close a window.
pub open spec fn delete_window_name() -> Seq<char> {
    "WM_DELETE_WINDOW"@
}

impl Protocols {
    /// No protocol is enabled.
    pub fn new() -> (r: Self)
        ensures
            r@ is None,
    {
        Self { delete_window: None }
    }

    /// The name of the atom that `enable_delete_window` takes.
    pub fn delete_window_atom_name() -> (r: AtomName)
        ensures
            r@ == delete_window_name(),
    {
        let name = "WM_DELETE_WINDOW".to_owned();
        proof {
            reveal_strlit("WM_DELETE_WINDOW");
            assert(is_atom_name(name@));
        }
        match AtomName::new(name) {
            Ok(atom_name) => atom_name,
            Err(_) => vstd::pervasive::unreached(),
        }
    }

    /// Enables the protocol `WM_DELETE_WINDOW`, whose atom has the
    /// identifier `atom_id`.
    ///
    /// Returns an error, and enables nothing, if the identifier is zero:
    /// the atom could not be had.
    pub fn enable_delete_window(&mut self, atom_id: u64) -> (r: Result<
        ProtocolHandlerDeleteWindow,
        (),
    >)
        ensures
            r is Ok <==> atom_id != 0,
            r is Ok ==> r->Ok_0@@ == atom_id && final(self)@ == Some(r->Ok_0@),
            r is Err ==> final(self)@ == old(self)@,
    {
        let atom = Atom::new(atom_id)?;
        self.delete_window = Some(atom);
        Ok(ProtocolHandlerDeleteWindow { protocol_name: atom })
    }

    /// The value for the property `WM_PROTOCOLS`: the atoms of the
    /// protocols that are enabled.
    pub fn protocol_atom_list(self) -> (r: AtomList)
        ensures
            r@ == match self@ {
                Some(atom) => seq![atom],
                None => Seq::<Atom>::empty(),
            },
    {
        let mut atom_list = AtomList::new();
        if let Some(atom) = self.delete_window {
            atom_list.add(atom)
        }
        atom_list
    }
}

/// Tells the messages of the protocol `WM_DELETE_WINDOW` from others.
#[derive(Debug)]
pub struct ProtocolHandlerDeleteWindow {
    protocol_name: Atom,
}

impl View for ProtocolHandlerDeleteWindow {
    type V = Atom;

    closed spec fn view(&self) -> Atom {
        self.protocol_name
    }
}

impl ProtocolHandlerDeleteWindow {
    /// Whether `event` is a message of the protocol: its data are long
    /// integers, and the first of them is the atom of the protocol.
    pub fn check_event(&self, event: &XClientMessageEvent) -> (r: bool)
        ensures
            r <==> event.format == 32 && event.data@[0] == self@@ as i64,
    {
        event.format == 32 && event.data[0] == #[verifier::truncate] (self.protocol_name.atom_id() as i64)
    }
}

} // verus!
