//! A file descriptor shared by the handle that opened it and by every
//! operation in flight on it.

use crate::sys::{arc_clone, arc_into_inner};
use std::sync::Arc;
use vstd::prelude::*;

verus! {

/// A counted reference to a raw file descriptor.
///
/// Every operation keeps a clone for as long as it is in flight, so the
/// descriptor outlives the handle it was taken from. The count is atomic:
/// clones may be made and dropped on any thread. Closing the descriptor is
/// left to whoever receives it from [`SharedFd::into_raw`].
pub struct SharedFd {
    inner: Arc<i32>,
}

impl SharedFd {
    /// The descriptor that the handle refers to.
    pub closed spec fn raw(&self) -> i32 {
        *self.inner
    }

    /// The first handle to `fd`.
    pub fn new(fd: i32) -> (h: SharedFd)
        ensures
            h.raw() == fd,
    {
        SharedFd { inner: Arc::new(fd) }
    }

    /// The raw descriptor, for building a submission. The handle keeps it.
    pub fn raw_fd(&self) -> (fd: i32)
        ensures
            fd == self.raw(),
    {
        *self.inner
    }

    /// Gives up this handle. The last handle to go receives the descriptor,
    /// and with it the duty to close it; every other one receives `None`.
    pub fn into_raw(self) -> (fd: Option<i32>)
        ensures
            fd matches Some(raw) ==> raw == self.raw(),
    {
        arc_into_inner(self.inner)
    }
}

impl Clone for SharedFd {
    /// Another handle to the same descriptor.
    fn clone(&self) -> (h: SharedFd)
        ensures
            h.raw() == self.raw(),
    {
        SharedFd { inner: arc_clone(&self.inner) }
    }
}

} // verus!
