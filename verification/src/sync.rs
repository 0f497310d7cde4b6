use vstd::prelude::*;

verus! {

/// A file descriptor to poll and its events (`struct pollfd`).
#[derive(Clone, Copy, Debug, PartialEq, Eq, Structural)]
pub struct PollFd {
    pub fd: i32,
    pub events: i16,
    pub revents: i16,
}

impl PollFd {
    /// Descriptor 0, with no event.
    pub fn new() -> (r: PollFd)
        ensures
            r == (PollFd { fd: 0, events: 0, revents: 0 }),
    {
        PollFd { fd: 0, events: 0, revents: 0 }
    }

    /// Sets the descriptor.
    pub fn fd(&mut self, fd: i32) -> (r: &mut Self)
        ensures
            *r == (PollFd { fd, ..*old(self) }),
            *final(self) == *final(r),
    {
        self.fd = fd;
        self
    }

    /// Sets the requested events.
    pub fn events(&mut self, events: i16) -> (r: &mut Self)
        ensures
            *r == (PollFd { events, ..*old(self) }),
            *final(self) == *final(r),
    {
        self.events = events;
        self
    }

    /// Sets the returned events.
    pub fn revents(&mut self, revents: i16) -> (r: &mut Self)
        ensures
            *r == (PollFd { revents, ..*old(self) }),
            *final(self) == *final(r),
    {
        self.revents = revents;
        self
    }
}

} // verus!
