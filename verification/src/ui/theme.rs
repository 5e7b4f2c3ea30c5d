//! Themes: named colour palettes with font and spacing settings, and the
//! manager that switches between them.

use crate::kernel::text;
use crate::ui::graphics::Rgb565;
use vstd::prelude::*;
use vstd::string::StringSliceAdditionalSpecFns;

verus! {

/// The colours of a theme.
#[derive(Debug, Clone, Copy, PartialEq, Eq, Structural)]
pub struct ThemeColors {
    pub primary: Rgb565,
    pub secondary: Rgb565,
    pub background: Rgb565,
    pub surface: Rgb565,
    pub text: Rgb565,
    pub text_secondary: Rgb565,
    pub border: Rgb565,
    pub accent: Rgb565,
    pub success: Rgb565,
    pub warning: Rgb565,
    pub error: Rgb565,
}

/// A named theme.
pub struct Theme {
    pub name: String,
    pub colors: ThemeColors,
    pub font_size: u32,
    pub border_radius: u32,
    pub padding: u32,
    pub margin: u32,
}

/// Two themes carry the same name and settings.
pub open spec fn theme_like(a: Theme, b: Theme) -> bool {
    &&& a.name@ == b.name@
    &&& a.colors == b.colors
    &&& a.font_size == b.font_size
    &&& a.border_radius == b.border_radius
    &&& a.padding == b.padding
    &&& a.margin == b.margin
}

impl Theme {
    /// Create a theme with the default font and spacing.
    pub fn new(name: String, colors: ThemeColors) -> (r: Self)
        ensures
            r.name@ == name@,
            r.colors == colors,
            r.font_size == 12,
            r.border_radius == 4,
            r.padding == 8,
            r.margin == 4,
    {
        Self { name, colors, font_size: 12, border_radius: 4, padding: 8, margin: 4 }
    }

    /// Copy the theme.
    pub fn duplicate(&self) -> (r: Self)
        ensures
            theme_like(r, *self),
    {
        Self {
            name: self.name.clone(),
            colors: self.colors,
            font_size: self.font_size,
            border_radius: self.border_radius,
            padding: self.padding,
            margin: self.margin,
        }
    }
}

/// The palette of the built-in default theme.
pub fn default_colors() -> (r: ThemeColors)
    ensures
        r.text == (Rgb565 { r5: 0, g6: 0, b5: 0 }),
{
    proof {
        assert(0u8 & 0x1F == 0 && 0u8 & 0x3F == 0) by (bit_vector);
    }
    ThemeColors {
        primary: Rgb565::new(0, 120, 215),
        secondary: Rgb565::new(100, 100, 100),
        background: Rgb565::new(240, 240, 240),
        surface: Rgb565::new(255, 255, 255),
        text: Rgb565::new(0, 0, 0),
        text_secondary: Rgb565::new(100, 100, 100),
        border: Rgb565::new(200, 200, 200),
        accent: Rgb565::new(255, 140, 0),
        success: Rgb565::new(0, 200, 0),
        warning: Rgb565::new(255, 165, 0),
        error: Rgb565::new(255, 0, 0),
    }
}

/// The theme manager: the active theme and the registered ones.
pub struct ThemeManager {
    pub current_theme: Theme,
    pub themes: Vec<Theme>,
}

/// At least the default theme is registered.
pub open spec fn tm_wf(m: ThemeManager) -> bool {
    m.themes@.len() >= 1
}

impl ThemeManager {
    /// The manager's invariant.
    pub open spec fn wf(&self) -> bool {
        tm_wf(*self)
    }

    /// Create a manager with the default theme registered and active.
    pub fn new() -> (r: Self)
        ensures
            r.wf(),
            r.themes@.len() == 1,
            r.current_theme.name@ == "Default"@,
            theme_like(r.current_theme, r.themes@[0]),
    {
        let default_theme = Theme::new(string_default_name(), default_colors());
        let registered = default_theme.duplicate();
        let mut themes: Vec<Theme> = Vec::new();
        themes.push(registered);
        Self { current_theme: default_theme, themes }
    }

    /// Register a theme.
    pub fn add_theme(&mut self, theme: Theme)
        requires
            old(self).wf(),
        ensures
            final(self).wf(),
            final(self).themes@.len() == old(self).themes@.len() + 1,
            final(self).themes@.last() == theme,
            final(self).themes@.drop_last() =~= old(self).themes@,
            theme_like(final(self).current_theme, old(self).current_theme),
            final(self).current_theme == old(self).current_theme,
    {
        self.themes.push(theme);
    }

    /// Make the theme with the given name current; the first match wins.
    /// Reports whether such a theme is registered.
    pub fn set_theme(&mut self, name: &str) -> (r: bool)
        requires
            old(self).wf(),
        ensures
            final(self).wf(),
            final(self).themes@ == old(self).themes@,
            r == exists|i: int|
                0 <= i < old(self).themes@.len() && (#[trigger] old(self).themes@[i]).name@
                    == name@,
            r ==> exists|i: int|
                {
                    &&& 0 <= i < old(self).themes@.len()
                    &&& (#[trigger] old(self).themes@[i]).name@ == name@
                    &&& (forall|j: int| 0 <= j < i ==> (#[trigger] old(self).themes@[j]).name@ != name@)
                    &&& theme_like(final(self).current_theme, old(self).themes@[i])
                },
            !r ==> final(self).current_theme == old(self).current_theme,
    {
        let n = self.themes.len();
        let mut i: usize = 0;
        while i < n
            invariant
                *self == *old(self),
                self.wf(),
                n == self.themes@.len(),
                0 <= i <= n,
                forall|j: int| 0 <= j < i ==> (#[trigger] self.themes@[j]).name@ != name@,
            decreases n - i,
        {
            if text::str_eq(self.themes[i].name.as_str(), name) {
                proof {
                    lemma_encode_injective(self.themes@[i as int].name@, name@);
                }
                self.current_theme = self.themes[i].duplicate();
                return true;
            }
            i = i + 1;
        }
        false
    }

    /// The active theme.
    pub fn get_current_theme(&self) -> (r: &Theme)
        ensures
            *r == self.current_theme,
    {
        &self.current_theme
    }

    /// The registered themes' names, in order.
    pub fn get_available_themes(&self) -> (r: Vec<&str>)
        ensures
            r@.len() == self.themes@.len(),
            forall|i: int| 0 <= i < r@.len() ==> (#[trigger] r@[i])@ == self.themes@[i].name@,
    {
        let n = self.themes.len();
        let mut names: Vec<&str> = Vec::new();
        let mut i: usize = 0;
        while i < n
            invariant
                n == self.themes@.len(),
                0 <= i <= n,
                names@.len() == i,
                forall|j: int| 0 <= j < i ==> (#[trigger] names@[j])@ == self.themes@[j].name@,
            decreases n - i,
        {
            names.push(self.themes[i].name.as_str());
            i = i + 1;
        }
        names
    }
}

/// The default theme's name as an owned string.
fn string_default_name() -> (r: String)
    ensures
        r@ == "Default"@,
{
    let r = String::from_str("Default");
    r
}

/// Register the two extra built-in themes: dark and high contrast.
pub fn register_additional_themes(manager: &mut ThemeManager)
    requires
        old(manager).wf(),
    ensures
        final(manager).wf(),
        final(manager).themes@.len() == old(manager).themes@.len() + 2,
{
    let dark = Theme::new(
        String::from_str("Dark"),
        ThemeColors {
            primary: Rgb565::new(0, 120, 215),
            secondary: Rgb565::new(100, 100, 100),
            background: Rgb565::new(30, 30, 30),
            surface: Rgb565::new(50, 50, 50),
            text: Rgb565::new(255, 255, 255),
            text_secondary: Rgb565::new(150, 150, 150),
            border: Rgb565::new(80, 80, 80),
            accent: Rgb565::new(255, 140, 0),
            success: Rgb565::new(0, 200, 0),
            warning: Rgb565::new(255, 165, 0),
            error: Rgb565::new(255, 0, 0),
        },
    );
    manager.add_theme(dark);
    let high_contrast = Theme::new(
        String::from_str("High Contrast"),
        ThemeColors {
            primary: Rgb565::new(0, 0, 255),
            secondary: Rgb565::new(128, 128, 128),
            background: Rgb565::new(255, 255, 255),
            surface: Rgb565::new(255, 255, 255),
            text: Rgb565::new(0, 0, 0),
            text_secondary: Rgb565::new(0, 0, 0),
            border: Rgb565::new(0, 0, 0),
            accent: Rgb565::new(255, 0, 0),
            success: Rgb565::new(0, 128, 0),
            warning: Rgb565::new(255, 255, 0),
            error: Rgb565::new(255, 0, 0),
        },
    );
    manager.add_theme(high_contrast);
}

/// The byte encoding of a character sequence determines it.
proof fn lemma_encode_injective(a: Seq<char>, b: Seq<char>)
    requires
        vstd::utf8::encode_utf8(a) == vstd::utf8::encode_utf8(b),
    ensures
        a == b,
{
    vstd::utf8::encode_utf8_decode_utf8(a);
    vstd::utf8::encode_utf8_decode_utf8(b);
}

} // verus!
