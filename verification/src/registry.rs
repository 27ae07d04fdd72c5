//! The set of live windows, owned by the thread that runs the native loop.

use std::collections::HashMap;
use vstd::prelude::*;

verus! {

broadcast use vstd::std_specs::hash::group_hash_axioms;

/// Identifier of a window, assigned by the native library when the window is created.
pub type WindowId = u64;

/// A request named a window that is not registered.
#[derive(Clone, Copy, Debug, PartialEq, Eq, Structural)]
pub enum RegistryError {
    /// No window with this id is registered: it was never created here, or it has
    /// been destroyed.
    UnknownWindow(WindowId),
}

/// Owner of the native windows, keyed by their ids.
///
/// `W` is the native window resource. The registry never looks inside it.
pub struct WindowRegistry<W> {
    windows: HashMap<WindowId, W>,
}

impl<W> View for WindowRegistry<W> {
    type V = Map<WindowId, W>;

    closed spec fn view(&self) -> Map<WindowId, W> {
        self.windows@
    }
}

impl<W> WindowRegistry<W> {
    /// What a lookup of `id` gives: the window registered under it, or the error that
    /// names the id.
    pub open spec fn lookup(&self, id: WindowId) -> Result<W, RegistryError> {
        if self@.contains_key(id) {
            Ok(self@[id])
        } else {
            Err(RegistryError::UnknownWindow(id))
        }
    }

    /// A registry without windows.
    pub fn new() -> (r: Self)
        ensures
            r@ == Map::<WindowId, W>::empty(),
    {
        WindowRegistry { windows: HashMap::new() }
    }

    /// Number of registered windows.
    pub fn len(&self) -> (n: usize)
        ensures
            n == self@.len(),
            self@.dom().finite(),
    {
        self.windows.len()
    }

    /// Whether a window with this id is registered.
    pub fn contains(&self, id: WindowId) -> (r: bool)
        ensures
            r == self@.contains_key(id),
    {
        self.windows.contains_key(&id)
    }

    /// Registers a newly created window under its id.
    ///
    /// The native library does not hand out the id of a live window twice; should it
    /// happen all the same, the new window takes the entry and the old one is returned.
    pub fn insert(&mut self, id: WindowId, window: W) -> (displaced: Option<W>)
        ensures
            final(self)@ == old(self)@.insert(id, window),
            displaced == (if old(self)@.contains_key(id) {
                Some(old(self)@[id])
            } else {
                None
            }),
    {
        self.windows.insert(id, window)
    }

    /// Looks a window up for an operation on it.
    pub fn get(&self, id: WindowId) -> (r: Result<&W, RegistryError>)
        ensures
            match r {
                Ok(window) => self.lookup(id) == Ok::<W, RegistryError>(*window),
                Err(e) => self.lookup(id) == Err::<W, RegistryError>(e),
            },
    {
        match self.windows.get(&id) {
            Some(window) => Ok(window),
            None => Err(RegistryError::UnknownWindow(id)),
        }
    }

    /// Destroys a window: takes it out of the registry and hands it back to be dropped.
    pub fn remove(&mut self, id: WindowId) -> (r: Result<W, RegistryError>)
        ensures
            final(self)@ == old(self)@.remove(id),
            r == old(self).lookup(id),
    {
        match self.windows.remove(&id) {
            Some(window) => Ok(window),
            None => Err(RegistryError::UnknownWindow(id)),
        }
    }
}

/// Once a window is destroyed, every operation on its id is an error that names the
/// id, until a window is registered under that id again.
pub proof fn law_destroyed_window_is_unknown<W>(
    before: WindowRegistry<W>,
    after: WindowRegistry<W>,
    id: WindowId,
)
    requires
        after@ == before@.remove(id),
    ensures
        after.lookup(id) == Err::<W, RegistryError>(RegistryError::UnknownWindow(id)),
        forall|other: WindowId| other != id ==> after.lookup(other) == before.lookup(other),
{
}

/// A window that was registered is found under its id, and no other entry changes.
pub proof fn law_registered_window_is_found<W>(
    before: WindowRegistry<W>,
    after: WindowRegistry<W>,
    id: WindowId,
    window: W,
)
    requires
        after@ == before@.insert(id, window),
    ensures
        after.lookup(id) == Ok::<W, RegistryError>(window),
        forall|other: WindowId| other != id ==> after.lookup(other) == before.lookup(other),
{
}

} // verus!
