//! Widgets: buttons and labels behind a common interface, and a manager
//! that owns them and routes events.

use crate::ui::graphics::{ctx_wf, GraphicsSystem, Rgb565};
use crate::ui::input::{InputEvent, MouseButton};
use vstd::prelude::*;

verus! {

/// Identifier of a widget.
pub type WidgetId = usize;

/// Interaction state of a widget.
#[derive(Debug, Clone, Copy, PartialEq, Eq, Structural)]
pub enum WidgetState {
    Normal,
    Hovered,
    Pressed,
    Disabled,
}

/// Position and size of a widget.
#[derive(Debug, Clone, Copy, PartialEq, Eq, Structural)]
pub struct WidgetRect {
    pub x: i32,
    pub y: i32,
    pub width: u32,
    pub height: u32,
}

/// A point lies inside a rectangle.
pub open spec fn point_inside(rect: WidgetRect, x: i32, y: i32) -> bool {
    &&& rect.x <= x < rect.x + rect.width
    &&& rect.y <= y < rect.y + rect.height
}

/// The interface every widget offers.
pub trait Widget {
    /// The widget's identifier.
    fn get_id(&self) -> WidgetId;

    /// The widget's position and size.
    fn get_rect(&self) -> WidgetRect;

    /// The widget's interaction state.
    fn get_state(&self) -> WidgetState;

    /// Draw the widget.
    fn draw(&self, graphics: &mut GraphicsSystem)
        requires
            ctx_wf(old(graphics).context),
        ensures
            ctx_wf(final(graphics).context),
    ;

    /// React to an input event; reports whether it was consumed.
    fn handle_event(&mut self, event: InputEvent) -> bool;

    /// Advance the widget's own state by one frame.
    fn update(&mut self);
}

/// A push button.
pub struct Button {
    pub id: WidgetId,
    pub rect: WidgetRect,
    pub state: WidgetState,
    pub text: String,
    pub background_color: Rgb565,
    pub text_color: Rgb565,
    pub on_click: Option<usize>,
}

impl Button {
    /// Create a button in the normal state with the default colours and
    /// no click action.
    pub fn new(id: WidgetId, x: i32, y: i32, width: u32, height: u32, text: String) -> (r: Self)
        ensures
            r.id == id,
            r.rect == (WidgetRect { x, y, width, height }),
            r.state == WidgetState::Normal,
            r.text@ == text@,
            r.on_click is None,
    {
        Self {
            id,
            rect: WidgetRect { x, y, width, height },
            state: WidgetState::Normal,
            text,
            background_color: Rgb565::new(200, 200, 200),
            text_color: Rgb565::new(0, 0, 0),
            on_click: None,
        }
    }

    /// Attach a click action by its handle.  Code cannot be stored as
    /// data here, so the handle is dispatched outside the library.
    pub fn set_on_click(&mut self, handler: usize)
        ensures
            *final(self) == (Button { on_click: Some(handler), ..*old(self) }),
    {
        self.on_click = Some(handler);
    }

    /// Whether a point lies inside the button.
    fn is_point_inside(&self, x: i32, y: i32) -> (r: bool)
        ensures
            r == point_inside(self.rect, x, y),
    {
        x as i64 >= self.rect.x as i64 && (x as i64) < self.rect.x as i64 + self.rect.width as i64
            && y as i64 >= self.rect.y as i64 && (y as i64) < self.rect.y as i64
            + self.rect.height as i64
    }
}

impl Widget for Button {
    fn get_id(&self) -> WidgetId {
        self.id
    }

    fn get_rect(&self) -> WidgetRect {
        self.rect
    }

    fn get_state(&self) -> WidgetState {
        self.state
    }

    fn draw(&self, graphics: &mut GraphicsSystem) {
        // Clip buttons that reach outside the drawable coordinate range.
        if self.rect.x >= 0 && self.rect.y >= 0 && self.rect.x <= 0x00FF_0000 && self.rect.y
            <= 0x00FF_0000 && self.rect.width <= 0x0100_0000 && self.rect.height <= 0x0100_0000 {
            graphics.set_color(self.background_color);
            graphics.draw_rectangle(
                self.rect.x as u32,
                self.rect.y as u32,
                self.rect.width,
                self.rect.height,
            );
            graphics.set_color(self.text_color);
            graphics.draw_text(self.rect.x as u32 + 10, self.rect.y as u32 + 20, self.text.as_str());
        }
    }

    fn handle_event(&mut self, event: InputEvent) -> bool {
        match event {
            InputEvent::MousePress { button: MouseButton::Left, x, y } => {
                if self.is_point_inside(x, y) {
                    self.state = WidgetState::Pressed;
                    return true;
                }
                false
            },
            InputEvent::MouseRelease { button: MouseButton::Left, x: _, y: _ } => {
                match self.state {
                    WidgetState::Pressed => {
                        self.state = WidgetState::Normal;
                        true
                    },
                    _ => false,
                }
            },
            _ => false,
        }
    }

    fn update(&mut self) {
    }
}

/// A text label.
pub struct Label {
    pub id: WidgetId,
    pub rect: WidgetRect,
    pub state: WidgetState,
    pub text: String,
    pub text_color: Rgb565,
}

impl Label {
    /// Create a label of the default size.
    pub fn new(id: WidgetId, x: i32, y: i32, text: String) -> (r: Self)
        ensures
            r.id == id,
            r.rect == (WidgetRect { x, y, width: 100, height: 20 }),
            r.state == WidgetState::Normal,
            r.text@ == text@,
    {
        Self {
            id,
            rect: WidgetRect { x, y, width: 100, height: 20 },
            state: WidgetState::Normal,
            text,
            text_color: Rgb565::new(0, 0, 0),
        }
    }
}

impl Widget for Label {
    fn get_id(&self) -> WidgetId {
        self.id
    }

    fn get_rect(&self) -> WidgetRect {
        self.rect
    }

    fn get_state(&self) -> WidgetState {
        self.state
    }

    fn draw(&self, graphics: &mut GraphicsSystem) {
        if self.rect.x >= 0 && self.rect.y >= 0 && self.rect.x <= 0x00FF_0000 && self.rect.y
            <= 0x00FF_0000 {
            graphics.set_color(self.text_color);
            graphics.draw_text(self.rect.x as u32, self.rect.y as u32, self.text.as_str());
        }
    }

    fn handle_event(&mut self, _event: InputEvent) -> bool {
        false
    }

    fn update(&mut self) {
    }
}

/// One owned widget.  Widgets of different kinds live in one table, so
/// the manager holds them as a closed choice rather than behind dynamic
/// dispatch.
pub enum WidgetItem {
    Button(Button),
    Label(Label),
}

impl WidgetItem {
    /// The widget's identifier.
    pub fn item_id(&self) -> (r: WidgetId)
        ensures
            r == spec_item_id(*self),
    {
        match self {
            WidgetItem::Button(button) => button.id,
            WidgetItem::Label(label) => label.id,
        }
    }
}

/// The identifier of an owned widget.
pub open spec fn spec_item_id(w: WidgetItem) -> WidgetId {
    match w {
        WidgetItem::Button(button) => button.id,
        WidgetItem::Label(label) => label.id,
    }
}

/// Slot `i` of the widget list holds the widget with the given id.
pub open spec fn widget_at(s: Seq<WidgetItem>, i: int, id: WidgetId) -> bool {
    0 <= i < s.len() && spec_item_id(s[i]) == id
}

/// The widget manager: the widgets in insertion order and the id counter.
pub struct WidgetManager {
    widgets: Vec<WidgetItem>,
    next_widget_id: usize,
}

impl WidgetManager {
    /// The widgets in insertion order.
    pub closed spec fn spec_widgets(&self) -> Seq<WidgetItem> {
        self.widgets@
    }

    /// The next id to hand out.
    pub closed spec fn next_id(&self) -> usize {
        self.next_widget_id
    }

    /// Create a manager with no widgets.
    pub fn new() -> (r: Self)
        ensures
            r.spec_widgets().len() == 0,
            r.next_id() == 1,
    {
        Self { widgets: Vec::new(), next_widget_id: 1 }
    }

    /// Hand out the next widget id.
    pub fn take_widget_id(&mut self) -> (r: WidgetId)
        requires
            old(self).next_id() < usize::MAX,
        ensures
            r == old(self).next_id(),
            final(self).next_id() == old(self).next_id() + 1,
            final(self).spec_widgets() == old(self).spec_widgets(),
    {
        let id = self.next_widget_id;
        self.next_widget_id = self.next_widget_id + 1;
        id
    }

    /// Add a widget.
    pub fn add_widget(&mut self, widget: WidgetItem)
        ensures
            final(self).spec_widgets() =~= old(self).spec_widgets().push(widget),
            final(self).next_id() == old(self).next_id(),
    {
        self.widgets.push(widget);
    }

    /// Borrow the widget with the given id; the first match wins, and
    /// whatever the caller does with the borrow is the only change.
    pub fn get_widget(&mut self, id: WidgetId) -> (r: Option<&mut WidgetItem>)
        ensures
            r is Some <==> exists|i: int| widget_at(old(self).spec_widgets(), i, id),
            r matches Some(w) ==> exists|i: int|
                {
                    &&& widget_at(old(self).spec_widgets(), i, id)
                    &&& (forall|j: int| 0 <= j < i ==> !widget_at(old(self).spec_widgets(), j, id))
                    &&& *w == old(self).spec_widgets()[i]
                    &&& final(self).spec_widgets() =~= old(self).spec_widgets().update(i, *final(w))
                    &&& final(self).next_id() == old(self).next_id()
                },
            r is None ==> *final(self) == *old(self),
    {
        let n = self.widgets.len();
        let mut i: usize = 0;
        while i < n
            invariant
                *self == *old(self),
                n == self.spec_widgets().len(),
                0 <= i <= n,
                forall|j: int| 0 <= j < i ==> !widget_at(self.spec_widgets(), j, id),
            decreases n - i,
        {
            if self.widgets[i].item_id() == id {
                proof {
                    assert(widget_at(self.spec_widgets(), i as int, id));
                }
                return Some(&mut self.widgets[i]);
            }
            i = i + 1;
        }
        None
    }

    /// Remove the widget with the given id; the first match goes.
    /// Reports whether such a widget existed.
    pub fn remove_widget(&mut self, id: WidgetId) -> (r: bool)
        ensures
            final(self).next_id() == old(self).next_id(),
            r == exists|i: int| widget_at(old(self).spec_widgets(), i, id),
            r ==> final(self).spec_widgets().len() == old(self).spec_widgets().len() - 1,
            !r ==> *final(self) == *old(self),
    {
        let n = self.widgets.len();
        let mut i: usize = 0;
        while i < n
            invariant
                *self == *old(self),
                n == self.spec_widgets().len(),
                0 <= i <= n,
                forall|j: int| 0 <= j < i ==> !widget_at(self.spec_widgets(), j, id),
            decreases n - i,
        {
            if self.widgets[i].item_id() == id {
                proof {
                    assert(widget_at(self.spec_widgets(), i as int, id));
                }
                let _ = self.widgets.remove(i);
                return true;
            }
            i = i + 1;
        }
        false
    }

    /// Draw every widget in insertion order.
    pub fn draw_all(&self, graphics: &mut GraphicsSystem)
        requires
            ctx_wf(old(graphics).context),
        ensures
            ctx_wf(final(graphics).context),
    {
        let n = self.widgets.len();
        let mut i: usize = 0;
        while i < n
            invariant
                ctx_wf(graphics.context),
                n == self.spec_widgets().len(),
                0 <= i <= n,
            decreases n - i,
        {
            match &self.widgets[i] {
                WidgetItem::Button(button) => {
                    button.draw(graphics);
                },
                WidgetItem::Label(label) => {
                    label.draw(graphics);
                },
            }
            i = i + 1;
        }
    }

    /// Offer an event to each widget in order; the first that consumes it
    /// wins.
    pub fn handle_event(&mut self, event: InputEvent) -> (r: bool)
        ensures
            final(self).next_id() == old(self).next_id(),
            final(self).spec_widgets().len() == old(self).spec_widgets().len(),
    {
        let n = self.widgets.len();
        let mut i: usize = 0;
        while i < n
            invariant
                n == self.spec_widgets().len(),
                n == old(self).spec_widgets().len(),
                self.next_id() == old(self).next_id(),
                0 <= i <= n,
            decreases n - i,
        {
            let consumed = match &mut self.widgets[i] {
                WidgetItem::Button(button) => button.handle_event(event),
                WidgetItem::Label(label) => label.handle_event(event),
            };
            if consumed {
                return true;
            }
            i = i + 1;
        }
        false
    }

    /// Advance every widget by one frame.
    pub fn update_all(&mut self)
        ensures
            final(self).next_id() == old(self).next_id(),
            final(self).spec_widgets().len() == old(self).spec_widgets().len(),
    {
        let n = self.widgets.len();
        let mut i: usize = 0;
        while i < n
            invariant
                n == self.spec_widgets().len(),
                n == old(self).spec_widgets().len(),
                self.next_id() == old(self).next_id(),
                0 <= i <= n,
            decreases n - i,
        {
            match &mut self.widgets[i] {
                WidgetItem::Button(button) => {
                    button.update();
                },
                WidgetItem::Label(label) => {
                    label.update();
                },
            }
            i = i + 1;
        }
    }
}

} // verus!
