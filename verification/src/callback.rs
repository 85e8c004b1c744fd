//! The single-slot callback registration the native kernel offers.
//!
//! A device has one error-callback slot and one memory-monitor slot; a scene
//! has one progress-monitor slot. Installing a callback overwrites whatever
//! the slot held, without queuing, chaining, or restoring it later; ending a
//! registration scope clears the slot. [`CallbackSlot`] models one such slot,
//! naming the installed callback by a token, and the shell that makes the
//! native registration calls keeps one alongside each native slot so that
//! what is installed is always known.

use vstd::prelude::*;

verus! {

/// One callback slot. `None` means no callback is installed.
pub struct CallbackSlot {
    active: Option<u64>,
}

/// The slot contents after installing `token`: the new callback alone,
/// whatever the slot held before.
pub open spec fn slot_after_install(token: u64) -> Option<u64> {
    Some(token)
}

/// The slot contents after clearing: empty, whatever the slot held before.
pub open spec fn slot_after_clear() -> Option<u64> {
    None
}

/// Whether the callback named `token` is the one a slot with contents
/// `active` would hand to the native kernel to invoke.
pub open spec fn slot_invokes(active: Option<u64>, token: u64) -> bool {
    active == Some(token)
}

impl CallbackSlot {
    /// The token of the installed callback, if any.
    pub closed spec fn active_token(&self) -> Option<u64> {
        self.active
    }

    /// A slot with nothing installed.
    pub fn empty() -> (s: Self)
        ensures
            s.active_token() is None,
    {
        CallbackSlot { active: None }
    }

    /// Installs the callback named `token`, replacing without restoring
    /// whatever was installed before.
    pub fn install(&mut self, token: u64)
        ensures
            final(self).active_token() == slot_after_install(token),
    {
        self.active = Some(token);
    }

    /// Clears the slot, as the end of a registration scope does. The
    /// previously installed callback is not restored later: the slot is
    /// simply empty.
    pub fn clear(&mut self)
        ensures
            final(self).active_token() == slot_after_clear(),
    {
        self.active = None;
    }

    /// The token of the installed callback, if any.
    pub fn current(&self) -> (r: Option<u64>)
        ensures
            r == self.active_token(),
    {
        self.active
    }

    /// Whether the callback named `token` is the installed one.
    pub fn would_invoke(&self, token: u64) -> (r: bool)
        ensures
            r == slot_invokes(self.active_token(), token),
    {
        match self.active {
            Some(t) => t == token,
            None => false,
        }
    }
}

/// Law: once a registration scope ends, the callback it had installed is
/// stale and never invoked again — neither by the cleared slot, nor after
/// a different callback is installed later.
pub proof fn lemma_cleared_slot_leaves_no_stale_callback(old_token: u64, new_token: u64)
    requires
        old_token != new_token,
    ensures
        !slot_invokes(slot_after_clear(), old_token),
        !slot_invokes(slot_after_install(new_token), old_token),
{
}

/// Law: installing a callback determines the slot's contents entirely — the
/// new callback is the installed one and any other is not, whatever the slot
/// held before (replace, not chain).
pub proof fn lemma_install_replaces(token: u64, other: u64)
    requires
        other != token,
    ensures
        slot_invokes(slot_after_install(token), token),
        !slot_invokes(slot_after_install(token), other),
{
}

} // verus!
