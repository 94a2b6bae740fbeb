use vstd::prelude::*;

verus! {

/// The session's single-owner cell for the application instance. The
/// application is checked out for the length of a callback, during which the
/// callback may reach back into the session, and checked back in right after;
/// it is never out twice at once.
pub struct AppSlot<A> {
    app: Option<A>,
}

impl<A> AppSlot<A> {
    /// The application held, or `None` while it is checked out or not yet built.
    pub closed spec fn view(&self) -> Option<A> {
        self.app
    }

    /// An empty slot, before the application is built.
    pub fn empty() -> (r: AppSlot<A>)
        ensures
            r.view() == None::<A>,
    {
        AppSlot { app: None }
    }

    /// Whether the application is in the slot.
    pub fn is_present(&self) -> (r: bool)
        ensures
            r == self.view().is_some(),
    {
        self.app.is_some()
    }

    /// Takes the application out for a callback.
    pub fn check_out(&mut self) -> (app: A)
        requires
            old(self).view().is_some(),
        ensures
            old(self).view() == Some(app),
            final(self).view() == None::<A>,
    {
        self.app.take().unwrap()
    }

    /// Puts the application back after a callback, or in for the first time.
    pub fn check_in(&mut self, app: A)
        requires
            old(self).view().is_none(),
        ensures
            final(self).view() == Some(app),
    {
        self.app = Some(app);
    }
}

} // verus!
