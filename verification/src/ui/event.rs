//! Application events and the manager that queues them.

use crate::ui::input::InputEvent;
use vstd::prelude::*;

verus! {

/// An application-level event.
#[derive(Debug, Clone, Copy, PartialEq, Eq, Structural)]
pub enum AppEvent {
    Quit,
    Resize { width: u32, height: u32 },
    Focus,
    Unfocus,
}

/// Handle of a registered input handler.  Code cannot be stored as data
/// here, so a handler is identified by a plain number and dispatched
/// outside the library.
pub type EventHandler = usize;

/// The event manager: registered input handlers and queued application
/// events.
pub struct EventManager {
    pub input_handlers: Vec<EventHandler>,
    pub app_events: Vec<AppEvent>,
}

impl EventManager {
    /// Create a manager with no handlers and nothing queued.
    pub fn new() -> (r: Self)
        ensures
            r.input_handlers@.len() == 0,
            r.app_events@.len() == 0,
    {
        Self { input_handlers: Vec::new(), app_events: Vec::new() }
    }

    /// Register an input handler.
    pub fn register_input_handler(&mut self, handler: EventHandler)
        ensures
            final(self).input_handlers@ =~= old(self).input_handlers@.push(handler),
            final(self).app_events == old(self).app_events,
    {
        self.input_handlers.push(handler);
    }

    /// Queue an application event.
    pub fn add_app_event(&mut self, event: AppEvent)
        ensures
            final(self).app_events@ =~= old(self).app_events@.push(event),
            final(self).input_handlers == old(self).input_handlers,
    {
        self.app_events.push(event);
    }

    /// Take the most recently queued application event.
    pub fn get_app_event(&mut self) -> (r: Option<AppEvent>)
        ensures
            final(self).input_handlers == old(self).input_handlers,
            old(self).app_events@.len() == 0 ==> r is None && final(self).app_events@ =~= old(self).app_events@,
            old(self).app_events@.len() > 0 ==> r == Some(old(self).app_events@.last()) && final(self).app_events@ =~= old(self).app_events@.drop_last(),
    {
        self.app_events.pop()
    }

    /// Handle every queued application event; the queue drains.
    pub fn process_events(&mut self)
        ensures
            final(self).app_events@.len() == 0,
            final(self).input_handlers == old(self).input_handlers,
    {
        loop
            invariant
                self.input_handlers == old(self).input_handlers,
            ensures
                self.app_events@.len() == 0,
                self.input_handlers == old(self).input_handlers,
            decreases self.app_events@.len(),
        {
            match self.get_app_event() {
                Some(event) => {
                    match event {
                        AppEvent::Quit => {},
                        AppEvent::Resize { width: _, height: _ } => {},
                        AppEvent::Focus => {},
                        AppEvent::Unfocus => {},
                    }
                },
                None => {
                    break ;
                },
            }
        }
    }
}

} // verus!
