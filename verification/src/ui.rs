//! The widget toolkit: graphics, input, windows, widgets, themes and
//! events.

pub mod event;
pub mod graphics;
pub mod input;
pub mod theme;
pub mod widget;
pub mod window;

use vstd::prelude::*;

verus! {

/// The toolkit's state, owned explicitly by the caller.
pub struct UiContext {
    pub graphics: graphics::GraphicsSystem,
    pub input: input::InputSystem,
    pub windows: window::WindowManager,
    pub themes: theme::ThemeManager,
}

/// Bring the toolkit up: a default screen, an empty input queue, no
/// windows, and the three built-in themes.
pub fn init() -> (r: UiContext)
    ensures
        r.input.spec_events().len() == 0,
        r.windows.wf(),
        r.windows.spec_windows().len() == 0,
        r.themes.wf(),
        r.themes.themes@.len() == 3,
{
    let mut themes = theme::ThemeManager::new();
    theme::register_additional_themes(&mut themes);
    UiContext {
        graphics: graphics::GraphicsSystem::new(800, 600),
        input: input::InputSystem::new(),
        windows: window::WindowManager::new(),
        themes,
    }
}

} // verus!
