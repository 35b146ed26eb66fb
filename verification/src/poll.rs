use vstd::prelude::*;

verus! {

/// A source of events that the reader polls; here it always reads as ready.
pub struct PollFd<T>(pub T);

/// Wraps `t` as a pollable source.
pub fn poll_fd<T>(t: T) -> (r: PollFd<T>)
    ensures
        r.0 == t,
{
    PollFd(t)
}

/// Access to a source while it is ready.
pub struct Guard<'a, T>(pub &'a mut PollFd<T>);

impl<T> PollFd<T> {
    /// Waits until the source is ready, which it always is, and hands out
    /// access to it.
    pub fn readable(&mut self) -> (g: Guard<'_, T>)
        ensures
            *g.0 == *old(self),
            *final(self) == *final(g.0),
    {
        Guard(self)
    }
}

impl<'a, T> Guard<'a, T> {
    /// The source itself.
    pub fn inner_mut(&mut self) -> (r: &mut T)
        ensures
            *r == old(self).0.0,
            final(self).0.0 == *final(r),
            *final(final(self).0) == *final(old(self).0),
    {
        let Guard(PollFd(t)) = self;
        t
    }

    /// Marks the source as drained; a source that is always ready keeps no
    /// such mark, so nothing changes.
    pub fn clear_ready(&mut self)
        ensures
            *final(self) == *old(self),
    {
    }
}

/// Writing through the guard reaches the source itself: for every `t`,
/// `x` and `y`, a write of `x` through `inner_mut`, then a second
/// `inner_mut` that sees `x` and writes `y`, leave `y` in the source once the
/// guard is gone.
pub fn law_write_through_guard<T>(t: T, x: T, y: T) -> (p: PollFd<T>)
    ensures
        p.0 == y,
{
    let mut p = poll_fd(t);
    let mut g = p.readable();
    let r = g.inner_mut();
    *r = x;
    let r = g.inner_mut();
    assert(*r == x);
    *r = y;
    g.clear_ready();
    p
}

} // verus!
