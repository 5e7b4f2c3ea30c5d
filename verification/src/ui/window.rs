//! Window management: windows with geometry, visibility and focus, and a
//! manager that owns them in stacking order.

use vstd::prelude::*;

verus! {

/// Identifier of a window.
pub type WindowId = usize;

/// State of a window.
#[derive(Debug, Clone, Copy, PartialEq, Eq, Structural)]
pub enum WindowState {
    Normal,
    Minimized,
    Maximized,
    Hidden,
}

/// One window.
pub struct Window {
    pub id: WindowId,
    pub title: String,
    pub x: i32,
    pub y: i32,
    pub width: u32,
    pub height: u32,
    pub state: WindowState,
    pub visible: bool,
    pub focused: bool,
}

impl Window {
    /// Create a visible, unfocused window in the normal state.
    pub fn new(id: WindowId, title: String, x: i32, y: i32, width: u32, height: u32) -> (r: Self)
        ensures
            r.id == id,
            r.title == title,
            r.x == x,
            r.y == y,
            r.width == width,
            r.height == height,
            r.state == WindowState::Normal,
            r.visible,
            !r.focused,
    {
        Self { id, title, x, y, width, height, state: WindowState::Normal, visible: true, focused: false }
    }

    /// Move the window.
    pub fn move_to(&mut self, x: i32, y: i32)
        ensures
            *final(self) == (Window { x, y, ..*old(self) }),
    {
        self.x = x;
        self.y = y;
    }

    /// Resize the window.
    pub fn resize(&mut self, width: u32, height: u32)
        ensures
            *final(self) == (Window { width, height, ..*old(self) }),
    {
        self.width = width;
        self.height = height;
    }

    /// Show the window.
    pub fn show(&mut self)
        ensures
            *final(self) == (Window { visible: true, ..*old(self) }),
    {
        self.visible = true;
    }

    /// Hide the window.  (`hide` itself is a reserved word of the
    /// verifier, so the method carries the longer name.)
    pub fn hide_window(&mut self)
        ensures
            *final(self) == (Window { visible: false, ..*old(self) }),
    {
        self.visible = false;
    }

    /// Minimise the window.
    pub fn minimize(&mut self)
        ensures
            *final(self) == (Window { state: WindowState::Minimized, ..*old(self) }),
    {
        self.state = WindowState::Minimized;
    }

    /// Maximise the window.
    pub fn maximize(&mut self)
        ensures
            *final(self) == (Window { state: WindowState::Maximized, ..*old(self) }),
    {
        self.state = WindowState::Maximized;
    }

    /// Restore the window to the normal state.
    pub fn restore(&mut self)
        ensures
            *final(self) == (Window { state: WindowState::Normal, ..*old(self) }),
    {
        self.state = WindowState::Normal;
    }

    /// Give the window focus.
    pub fn focus(&mut self)
        ensures
            *final(self) == (Window { focused: true, ..*old(self) }),
    {
        self.focused = true;
    }

    /// Take the window's focus away.
    pub fn unfocus(&mut self)
        ensures
            *final(self) == (Window { focused: false, ..*old(self) }),
    {
        self.focused = false;
    }
}

/// Slot `i` of the window list holds the window with the given id.
pub open spec fn window_at(s: Seq<Window>, i: int, id: WindowId) -> bool {
    0 <= i < s.len() && s[i].id == id
}

/// The window manager: the windows in stacking order, the id counter and
/// the focused window.
pub struct WindowManager {
    windows: Vec<Window>,
    next_window_id: usize,
    focused_window: Option<WindowId>,
}

impl WindowManager {
    /// The windows in stacking order.
    pub closed spec fn spec_windows(&self) -> Seq<Window> {
        self.windows@
    }

    /// The next id to hand out.
    pub closed spec fn next_id(&self) -> usize {
        self.next_window_id
    }

    /// The focused window's id.
    pub closed spec fn focused(&self) -> Option<WindowId> {
        self.focused_window
    }

    /// Ids start at 1, stay below the counter and are pairwise distinct.
    pub open spec fn wf(&self) -> bool {
        &&& self.next_id() >= 1
        &&& (forall|i: int|
            0 <= i < self.spec_windows().len() ==> 1 <= (#[trigger] self.spec_windows()[i]).id
                < self.next_id())
        &&& (forall|i: int, j: int|
            0 <= i < self.spec_windows().len() && 0 <= j < self.spec_windows().len() && i != j
                ==> (#[trigger] self.spec_windows()[i]).id != (#[trigger] self.spec_windows()[j]).id)
    }

    /// Create a manager with no windows.
    pub fn new() -> (r: Self)
        ensures
            r.wf(),
            r.spec_windows().len() == 0,
            r.next_id() == 1,
            r.focused() is None,
    {
        Self { windows: Vec::new(), next_window_id: 1, focused_window: None }
    }

    /// Create a window on top of the stack and hand its id out.
    pub fn create_window(&mut self, title: String, x: i32, y: i32, width: u32, height: u32) -> (r:
        WindowId)
        requires
            old(self).wf(),
            old(self).next_id() < usize::MAX,
        ensures
            final(self).wf(),
            r == old(self).next_id(),
            final(self).next_id() == old(self).next_id() + 1,
            final(self).focused() == old(self).focused(),
            final(self).spec_windows().len() == old(self).spec_windows().len() + 1,
            final(self).spec_windows().last().id == r,
            final(self).spec_windows().last().title == title,
            final(self).spec_windows().drop_last() =~= old(self).spec_windows(),
    {
        let id = self.next_window_id;
        self.next_window_id = self.next_window_id + 1;
        let window = Window::new(id, title, x, y, width, height);
        self.windows.push(window);
        id
    }

    /// Borrow the window with the given id; the first match wins, and
    /// whatever the caller does with the borrow is the only change.
    pub fn get_window(&mut self, id: WindowId) -> (r: Option<&mut Window>)
        requires
            old(self).wf(),
        ensures
            r is Some <==> exists|i: int| window_at(old(self).spec_windows(), i, id),
            r matches Some(w) ==> exists|i: int|
                {
                    &&& window_at(old(self).spec_windows(), i, id)
                    &&& (forall|j: int| 0 <= j < i ==> !window_at(old(self).spec_windows(), j, id))
                    &&& *w == old(self).spec_windows()[i]
                    &&& final(self).spec_windows() =~= old(self).spec_windows().update(i, *final(w))
                    &&& final(self).next_id() == old(self).next_id()
                    &&& final(self).focused() == old(self).focused()
                },
            r is None ==> *final(self) == *old(self),
    {
        let n = self.windows.len();
        let mut i: usize = 0;
        while i < n
            invariant
                *self == *old(self),
                self.wf(),
                n == self.spec_windows().len(),
                0 <= i <= n,
                forall|j: int| 0 <= j < i ==> !window_at(self.spec_windows(), j, id),
            decreases n - i,
        {
            if self.windows[i].id == id {
                proof {
                    assert(window_at(self.spec_windows(), i as int, id));
                }
                return Some(&mut self.windows[i]);
            }
            i = i + 1;
        }
        None
    }

    /// Destroy the window with the given id; it loses the focus if it had
    /// it.  Reports whether such a window existed.
    pub fn destroy_window(&mut self, id: WindowId) -> (r: bool)
        requires
            old(self).wf(),
        ensures
            final(self).wf(),
            final(self).next_id() == old(self).next_id(),
            r == exists|i: int| window_at(old(self).spec_windows(), i, id),
            r ==> final(self).spec_windows().len() == old(self).spec_windows().len() - 1,
            !r ==> *final(self) == *old(self),
            old(self).focused() == Some(id) && r ==> final(self).focused() is None,
            old(self).focused() != Some(id) ==> final(self).focused() == old(self).focused(),
    {
        let n = self.windows.len();
        let mut i: usize = 0;
        while i < n
            invariant
                *self == *old(self),
                self.wf(),
                n == self.spec_windows().len(),
                0 <= i <= n,
                forall|j: int| 0 <= j < i ==> !window_at(self.spec_windows(), j, id),
            decreases n - i,
        {
            if self.windows[i].id == id {
                proof {
                    assert(window_at(self.spec_windows(), i as int, id));
                }
                let _ = self.windows.remove(i);
                match self.focused_window {
                    Some(current) => {
                        if current == id {
                            self.focused_window = None;
                        }
                    },
                    None => {},
                }
                return true;
            }
            i = i + 1;
        }
        false
    }

    /// The windows in stacking order.
    pub fn get_windows(&self) -> (r: &Vec<Window>)
        ensures
            r@ == self.spec_windows(),
    {
        &self.windows
    }

    /// The focused window's id.
    pub fn get_focused_window(&self) -> (r: Option<WindowId>)
        ensures
            r == self.focused(),
    {
        self.focused_window
    }

    /// The slot of the window with the given id; the first match wins.
    fn find_window_index(&self, id: WindowId) -> (r: Option<usize>)
        ensures
            r is Some <==> exists|i: int| window_at(self.spec_windows(), i, id),
            r matches Some(k) ==> window_at(self.spec_windows(), k as int, id) && (forall|j: int|
                0 <= j < k ==> !window_at(self.spec_windows(), j, id)),
    {
        let n = self.windows.len();
        let mut i: usize = 0;
        while i < n
            invariant
                n == self.spec_windows().len(),
                0 <= i <= n,
                forall|j: int| 0 <= j < i ==> !window_at(self.spec_windows(), j, id),
            decreases n - i,
        {
            if self.windows[i].id == id {
                proof {
                    assert(window_at(self.spec_windows(), i as int, id));
                }
                return Some(i);
            }
            i = i + 1;
        }
        None
    }

    /// Move the focus to the window with the given id: the previously
    /// focused window loses it.  Reports whether such a window existed.
    pub fn focus_window(&mut self, id: WindowId) -> (r: bool)
        requires
            old(self).wf(),
        ensures
            final(self).wf(),
            final(self).next_id() == old(self).next_id(),
            r == exists|i: int| window_at(old(self).spec_windows(), i, id),
            r ==> final(self).focused() == Some(id),
            !r ==> *final(self) == *old(self),
            final(self).spec_windows().len() == old(self).spec_windows().len(),
    {
        match self.find_window_index(id) {
            Some(_) => {},
            None => {
                return false;
            },
        }
        // Take the focus away from the previously focused window.
        match self.focused_window {
            Some(current_id) => {
                match self.find_window_index(current_id) {
                    Some(k) => {
                        let ghost pre = *self;
                        self.windows[k].unfocus();
                        proof {
                            assert(self.windows@ =~= pre.spec_windows().update(
                                k as int,
                                self.windows@[k as int],
                            ));
                            assert(self.windows@[k as int].id == pre.spec_windows()[k as int].id);
                            assert forall|i: int|
                                window_at(pre.spec_windows(), i, id) implies window_at(
                                self.spec_windows(),
                                i,
                                id,
                            ) by {}
                        }
                    },
                    None => {},
                }
            },
            None => {},
        }
        // Focus the target; ids did not change, so it is still there.
        match self.find_window_index(id) {
            Some(k) => {
                let ghost pre = *self;
                self.windows[k].focus();
                proof {
                    assert(self.windows@ =~= pre.spec_windows().update(
                        k as int,
                        self.windows@[k as int],
                    ));
                    assert(self.windows@[k as int].id == pre.spec_windows()[k as int].id);
                }
            },
            None => {},
        }
        self.focused_window = Some(id);
        true
    }

    /// Raise the window with the given id to the top of the stack.
    /// Reports whether such a window existed.
    pub fn bring_to_front(&mut self, id: WindowId) -> (r: bool)
        requires
            old(self).wf(),
        ensures
            final(self).wf(),
            final(self).next_id() == old(self).next_id(),
            final(self).focused() == old(self).focused(),
            r == exists|i: int| window_at(old(self).spec_windows(), i, id),
            r ==> final(self).spec_windows().len() == old(self).spec_windows().len() && final(self).spec_windows().last().id == id,
            !r ==> *final(self) == *old(self),
    {
        let n = self.windows.len();
        let mut i: usize = 0;
        while i < n
            invariant
                *self == *old(self),
                self.wf(),
                n == self.spec_windows().len(),
                0 <= i <= n,
                forall|j: int| 0 <= j < i ==> !window_at(self.spec_windows(), j, id),
            decreases n - i,
        {
            if self.windows[i].id == id {
                proof {
                    assert(window_at(self.spec_windows(), i as int, id));
                }
                let window = self.windows.remove(i);
                self.windows.push(window);
                return true;
            }
            i = i + 1;
        }
        false
    }

    /// Draw the visible windows; no surface is attached in this build.
    pub fn render_windows(&mut self)
        ensures
            *final(self) == *old(self),
    {
        let n = self.windows.len();
        let mut i: usize = 0;
        while i < n
            invariant
                *self == *old(self),
                n == self.spec_windows().len(),
                0 <= i <= n,
            decreases n - i,
        {
            if self.windows[i].visible {
                // The surface write would happen here.
            }
            i = i + 1;
        }
    }
}

} // verus!
