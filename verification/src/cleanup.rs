//! What is left to do when the program is interrupted.
//!
//! While an interface is claimed the kernel's driver is detached from it, and
//! keys of the headset such as the volume do nothing. The action that attaches
//! the driver again is kept here for the handler of the interrupt.
use vstd::prelude::*;

verus! {

/// The exit code of a program that was interrupted.
pub const INTERRUPTED_EXIT_CODE: i32 = 130;

/// The place of the action, which is empty while no interface is claimed.
pub struct CleanupSlot<T> {
    pub cleanup: Option<T>,
}

impl<T> CleanupSlot<T> {
    pub fn new() -> (s: Self)
        ensures
            s.cleanup is None,
    {
        CleanupSlot { cleanup: None }
    }

    /// Keeps the action, in place of the one that was there.
    pub fn register_libusb_cleanup(&mut self, cleanup: T)
        ensures
            final(self).cleanup == Some(cleanup),
    {
        self.cleanup = Some(cleanup);
    }

    /// Drops the action: the interface has been released.
    pub fn clear_libusb_cleanup(&mut self)
        ensures
            final(self).cleanup is None,
    {
        self.cleanup = None;
    }

    /// Hands out the action, once.
    pub fn take_cleanup(&mut self) -> (cleanup: Option<T>)
        ensures
            cleanup == old(self).cleanup,
            final(self).cleanup is None,
    {
        self.cleanup.take()
    }
}

} // verus!
