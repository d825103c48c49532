//! The callback slot: a holder of at most one callback.

use vstd::prelude::*;

verus! {

/// Holds the callback that a notification is to invoke, if there is one.
///
/// Installing a callback discards the one that was there: nothing is queued
/// and a notification never reaches two callbacks.
pub struct CallbackSlot<C> {
    callback: Option<C>,
}

impl<C> View for CallbackSlot<C> {
    type V = Option<C>;

    closed spec fn view(&self) -> Option<C> {
        self.callback
    }
}

/// What a slot that held `held` holds after `callback` was installed: the
/// new callback, whatever was there.
pub open spec fn after_install<C>(held: Option<C>, callback: C) -> Option<C> {
    Some(callback)
}

/// What the slot holds after the callbacks of `callbacks` were installed one
/// after the other into a slot that held `held`.
pub open spec fn installed_in_turn<C>(held: Option<C>, callbacks: Seq<C>) -> Option<C>
    decreases callbacks.len(),
{
    if callbacks.len() == 0 {
        held
    } else {
        installed_in_turn(after_install(held, callbacks[0]), callbacks.skip(1))
    }
}

impl<C> CallbackSlot<C> {
    /// A slot that holds nothing.
    pub fn empty() -> (slot: Self)
        ensures
            slot@ is None,
    {
        CallbackSlot { callback: None }
    }

    /// A slot that holds `callback`.
    pub fn new(callback: C) -> (slot: Self)
        ensures
            slot@ == Some(callback),
    {
        CallbackSlot { callback: Some(callback) }
    }

    /// Puts `callback` into the slot and hands back what it displaced.
    pub fn install(&mut self, callback: C) -> (displaced: Option<C>)
        ensures
            final(self)@ == after_install(old(self)@, callback),
            displaced == old(self)@,
    {
        let mut held = Some(callback);
        core::mem::swap(&mut self.callback, &mut held);
        held
    }

    /// The callback that a notification is to invoke now.
    pub fn current(&self) -> (callback: Option<&C>)
        ensures
            match callback {
                Some(held) => self@ == Some(*held),
                None => self@ is None,
            },
    {
        self.callback.as_ref()
    }

    /// Empties the slot and hands back what it held.
    pub fn clear(&mut self) -> (displaced: Option<C>)
        ensures
            final(self)@ is None,
            displaced == old(self)@,
    {
        self.callback.take()
    }
}

/// Last install wins: after any number of installs, the slot holds the
/// callback of the last one and no other.
pub proof fn lemma_last_install_wins<C>(held: Option<C>, callbacks: Seq<C>)
    requires
        callbacks.len() > 0,
    ensures
        installed_in_turn(held, callbacks) == Some(callbacks.last()),
    decreases callbacks.len(),
{
    let rest = callbacks.skip(1);
    let next = after_install(held, callbacks[0]);
    if rest.len() > 0 {
        lemma_last_install_wins(next, rest);
        assert(rest.last() == callbacks.last());
    } else {
        assert(installed_in_turn(next, rest) == next);
        assert(callbacks.last() == callbacks[0]);
    }
}

} // verus!
