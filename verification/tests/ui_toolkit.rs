//! Tests for the widget toolkit.

use retron::ui::event::{AppEvent, EventManager};
use retron::ui::graphics::{GraphicsContext, GraphicsSystem, Rgb565};
use retron::ui::input::{
    handle_key_event, handle_mouse_event, handle_touch_event, InputEvent, InputSystem, KeyCode,
    KeyModifiers, MouseButton, TouchEventType,
};
use retron::ui::theme::{register_additional_themes, ThemeManager};
use retron::ui::widget::{Button, Label, Widget, WidgetItem, WidgetManager, WidgetState};
use retron::ui::window::{Window, WindowManager, WindowState};
use retron::ui::init;

#[test]
fn colours_mask_their_channels() {
    let c = Rgb565::new(200, 200, 200);
    assert_eq!(c.r(), 200 & 0x1F);
    assert_eq!(c.g(), 200 & 0x3F);
    assert_eq!(c.b(), 200 & 0x1F);
    let white = Rgb565::white();
    assert_eq!((white.r(), white.g(), white.b()), (31, 63, 31));
}

#[test]
fn pixels_store_reduced_channels() {
    let mut ctx = GraphicsContext::new(4, 4);
    ctx.set_pixel(1, 2, Rgb565::new(255, 255, 255));
    let got = ctx.get_pixel(1, 2).unwrap();
    // The 5-6-5 channels are reduced to bytes on the way in and widened
    // on the way back.
    assert_eq!(got.r(), (31u8 >> 3) << 3);
    assert!(ctx.get_pixel(4, 0).is_none());
    // A write outside the frame is ignored.
    ctx.set_pixel(9, 9, Rgb565::white());
}

#[test]
fn the_drawing_system_keeps_its_colours() {
    let mut g = GraphicsSystem::new(32, 32);
    g.set_color(Rgb565::new(255, 0, 0));
    g.draw_rectangle(1, 1, 4, 4);
    g.draw_circle(8, 8, 3);
    g.draw_line(0, 0, 10, 10);
    g.draw_text(0, 16, "AB!");
    g.set_background_color(Rgb565::new(255, 255, 255));
    g.clear();
    // After a clear every pixel reads back the reduced background.
    let p = g.context.get_pixel(3, 3).unwrap();
    assert_eq!((p.r(), p.g(), p.b()), ((31 >> 3) << 3, (63 >> 2) << 2, (31 >> 3) << 3));
    assert_eq!(g.current_color.r5, 31);
}

#[test]
fn windows_move_resize_and_toggle() {
    let mut w = Window::new(1, String::from("editor"), 10, 10, 300, 200);
    w.move_to(20, 30);
    assert_eq!((w.x, w.y), (20, 30));
    w.resize(640, 480);
    assert_eq!((w.width, w.height), (640, 480));
    w.hide_window();
    assert!(!w.visible);
    w.show();
    assert!(w.visible);
    w.minimize();
    assert_eq!(w.state, WindowState::Minimized);
    w.maximize();
    assert_eq!(w.state, WindowState::Maximized);
    w.restore();
    assert_eq!(w.state, WindowState::Normal);
}

#[test]
fn the_window_manager_tracks_focus_and_order() {
    let mut m = WindowManager::new();
    let a = m.create_window(String::from("a"), 0, 0, 100, 100);
    let b = m.create_window(String::from("b"), 0, 0, 100, 100);
    assert_eq!((a, b), (1, 2));
    assert!(m.focus_window(a));
    assert_eq!(m.get_focused_window(), Some(a));
    assert!(m.focus_window(b));
    assert_eq!(m.get_focused_window(), Some(b));
    assert!(!m.focus_window(99));
    assert!(m.bring_to_front(a));
    assert_eq!(m.get_windows().last().unwrap().id, a);
    assert!(m.get_window(a).is_some());
    assert!(m.get_window(77).is_none());
    assert!(m.destroy_window(b));
    assert_eq!(m.get_windows().len(), 1);
    assert!(!m.destroy_window(b));
    m.render_windows();
}

#[test]
fn destroying_the_focused_window_clears_the_focus() {
    let mut m = WindowManager::new();
    let a = m.create_window(String::from("a"), 0, 0, 10, 10);
    assert!(m.focus_window(a));
    assert!(m.destroy_window(a));
    assert_eq!(m.get_focused_window(), None);
}

#[test]
fn buttons_react_to_clicks_inside_their_rectangle() {
    let mut button = Button::new(1, 10, 10, 100, 30, String::from("go"));
    button.set_on_click(7);
    assert_eq!(button.on_click, Some(7));
    let press_inside = InputEvent::MousePress { button: MouseButton::Left, x: 50, y: 20 };
    assert!(button.handle_event(press_inside));
    assert_eq!(button.get_state(), WidgetState::Pressed);
    let release = InputEvent::MouseRelease { button: MouseButton::Left, x: 50, y: 20 };
    assert!(button.handle_event(release));
    assert_eq!(button.get_state(), WidgetState::Normal);
    let press_outside = InputEvent::MousePress { button: MouseButton::Left, x: 5, y: 5 };
    assert!(!button.handle_event(press_outside));
}

#[test]
fn the_widget_manager_owns_and_finds_widgets() {
    let mut m = WidgetManager::new();
    let button_id = m.take_widget_id();
    m.add_widget(WidgetItem::Button(Button::new(button_id, 0, 0, 50, 20, String::from("ok"))));
    let label_id = m.take_widget_id();
    m.add_widget(WidgetItem::Label(Label::new(label_id, 0, 30, String::from("hello"))));
    assert!(m.get_widget(button_id).is_some());
    assert!(m.get_widget(99).is_none());
    let press = InputEvent::MousePress { button: MouseButton::Left, x: 10, y: 10 };
    assert!(m.handle_event(press));
    m.update_all();
    let mut g = GraphicsSystem::new(64, 64);
    m.draw_all(&mut g);
    assert!(m.remove_widget(label_id));
    assert!(!m.remove_widget(label_id));
}

#[test]
fn input_tracks_keys_buttons_and_touches() {
    let mut s = InputSystem::new();
    handle_key_event(&mut s, KeyCode::A, true, KeyModifiers::new());
    assert!(s.is_key_pressed(KeyCode::A));
    assert!(!s.is_key_pressed(KeyCode::B));
    handle_key_event(&mut s, KeyCode::A, false, KeyModifiers::new());
    assert!(!s.is_key_pressed(KeyCode::A));
    handle_mouse_event(&mut s, MouseButton::Left, true, 12, 34);
    assert!(s.is_mouse_button_pressed(MouseButton::Left));
    assert!(!s.is_mouse_button_pressed(MouseButton::Right));
    assert_eq!(s.get_mouse_position(), (12, 34));
    handle_mouse_event(&mut s, MouseButton::Left, false, 12, 34);
    assert!(!s.is_mouse_button_pressed(MouseButton::Left));
    handle_touch_event(&mut s, TouchEventType::Start, 1, 2, 9);
    assert!(matches!(s.get_event(), Some(InputEvent::TouchStart { x: 1, y: 2, id: 9 })));
    s.add_event(InputEvent::MouseMove { x: 0, y: 0 });
    s.clear_events();
    assert!(s.get_event().is_none());
}

#[test]
fn the_event_manager_queues_and_drains() {
    let mut m = EventManager::new();
    m.register_input_handler(3);
    m.add_app_event(AppEvent::Quit);
    m.add_app_event(AppEvent::Resize { width: 800, height: 600 });
    assert!(matches!(m.get_app_event(), Some(AppEvent::Resize { .. })));
    m.add_app_event(AppEvent::Focus);
    m.process_events();
    assert!(m.get_app_event().is_none());
    assert_eq!(m.input_handlers.len(), 1);
}

#[test]
fn themes_switch_by_name() {
    let mut m = ThemeManager::new();
    register_additional_themes(&mut m);
    assert_eq!(m.themes.len(), 3);
    let names = m.get_available_themes();
    assert_eq!(names, vec!["Default", "Dark", "High Contrast"]);
    assert!(m.set_theme("Dark"));
    assert_eq!(m.get_current_theme().name, "Dark");
    assert!(!m.set_theme("Sepia"));
    assert_eq!(m.get_current_theme().name, "Dark");
}

#[test]
fn the_toolkit_boots_with_its_defaults() {
    let ui = init();
    assert_eq!(ui.graphics.context.width, 800);
    assert_eq!(ui.windows.get_windows().len(), 0);
    assert_eq!(ui.themes.themes.len(), 3);
}
