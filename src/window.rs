use vstd::prelude::*;

verus! {

/// What the library tracks of the current window: its title and whether a
/// close request has come from the window backend.
pub struct WindowState {
    title: String,
    close_requested: bool,
}

impl WindowState {
    /// The window's displayed title.
    pub closed spec fn title_view(&self) -> Seq<char> {
        self.title@
    }

    /// Whether the window backend has asked for the window to close.
    pub closed spec fn close_requested_view(&self) -> bool {
        self.close_requested
    }

    /// The state of a window just opened with `title`: no close request yet.
    pub fn new(title: String) -> (r: WindowState)
        ensures
            r.title_view() == title@,
            !r.close_requested_view(),
    {
        WindowState { title, close_requested: false }
    }

    /// Sets the window's title.
    pub fn set_title(&mut self, text: String)
        ensures
            final(self).title_view() == text@,
            final(self).close_requested_view() == old(self).close_requested_view(),
    {
        self.title = text;
    }

    /// The window's title.
    pub fn title(&self) -> (r: &str)
        ensures
            r@ == self.title_view(),
    {
        self.title.as_str()
    }

    /// Records that the window backend signalled a close request.
    pub fn request_close(&mut self)
        ensures
            final(self).close_requested_view(),
            final(self).title_view() == old(self).title_view(),
    {
        self.close_requested = true;
    }

    /// Whether the window should be closed.
    pub fn should_close(&self) -> (r: bool)
        ensures
            r == self.close_requested_view(),
    {
        self.close_requested
    }
}

} // verus!
