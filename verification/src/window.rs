//! Options for creating a window, and the settings they turn into.

use vstd::prelude::*;
use vstd::std_specs::convert::FromSpec;
use winit::window::{Theme, WindowButtons, WindowLevel};

verus! {

#[verifier::external_type_specification]
pub struct ExWindowLevel(WindowLevel);

#[verifier::external_type_specification]
pub struct ExTheme(Theme);

/// Stacking level of a window relative to other windows.
#[derive(Clone, Copy, Debug, PartialEq, Eq, Structural)]
pub enum WsiWindowLevel {
    AlwaysOnBottom,
    Normal,
    AlwaysOnTop,
}

impl From<WsiWindowLevel> for WindowLevel {
    fn from(level: WsiWindowLevel) -> (r: WindowLevel) {
        match level {
            WsiWindowLevel::AlwaysOnBottom => WindowLevel::AlwaysOnBottom,
            WsiWindowLevel::Normal => WindowLevel::Normal,
            WsiWindowLevel::AlwaysOnTop => WindowLevel::AlwaysOnTop,
        }
    }
}

impl vstd::std_specs::convert::FromSpecImpl<WsiWindowLevel> for WindowLevel {
    open spec fn obeys_from_spec() -> bool {
        true
    }

    open spec fn from_spec(level: WsiWindowLevel) -> WindowLevel {
        match level {
            WsiWindowLevel::AlwaysOnBottom => WindowLevel::AlwaysOnBottom,
            WsiWindowLevel::Normal => WindowLevel::Normal,
            WsiWindowLevel::AlwaysOnTop => WindowLevel::AlwaysOnTop,
        }
    }
}

/// Colour theme of a window.
#[derive(Clone, Copy, Debug, PartialEq, Eq, Structural)]
pub enum WsiWindowTheme {
    Light,
    Dark,
}

impl From<WsiWindowTheme> for Theme {
    fn from(theme: WsiWindowTheme) -> (r: Theme) {
        match theme {
            WsiWindowTheme::Light => Theme::Light,
            WsiWindowTheme::Dark => Theme::Dark,
        }
    }
}

impl vstd::std_specs::convert::FromSpecImpl<WsiWindowTheme> for Theme {
    open spec fn obeys_from_spec() -> bool {
        true
    }

    open spec fn from_spec(theme: WsiWindowTheme) -> Theme {
        match theme {
            WsiWindowTheme::Light => Theme::Light,
            WsiWindowTheme::Dark => Theme::Dark,
        }
    }
}

impl From<Theme> for WsiWindowTheme {
    fn from(theme: Theme) -> (r: WsiWindowTheme) {
        match theme {
            Theme::Light => WsiWindowTheme::Light,
            Theme::Dark => WsiWindowTheme::Dark,
        }
    }
}

impl vstd::std_specs::convert::FromSpecImpl<Theme> for WsiWindowTheme {
    open spec fn obeys_from_spec() -> bool {
        true
    }

    open spec fn from_spec(theme: Theme) -> WsiWindowTheme {
        match theme {
            Theme::Light => WsiWindowTheme::Light,
            Theme::Dark => WsiWindowTheme::Dark,
        }
    }
}

/// A theme survives the way to the native type and back, in both directions.
pub proof fn law_theme_round_trip(theme: WsiWindowTheme, native: Theme)
    ensures
        WsiWindowTheme::from_spec(Theme::from_spec(theme)) == theme,
        Theme::from_spec(WsiWindowTheme::from_spec(native)) == native,
{
}

/// The bits that name a window button: close, minimize and maximize.
pub open spec fn window_button_bits() -> u32 {
    0b111
}

/// `WindowButtons::from_bits_truncate` followed by `WindowButtons::bits`: the bits
/// that name a button are kept, all others are dropped.
#[verifier::external_body]
fn truncate_window_buttons(bits: u32) -> (r: u32)
    ensures
        r == bits & window_button_bits(),
{
    WindowButtons::from_bits_truncate(bits).bits()
}

/// What a window is to be created with, as far as it has been said.
///
/// Each field that is `None` leaves the native library's default in place. The
/// settings are handed to the native window builder when the window is built.
#[derive(Clone, Debug, PartialEq, Eq)]
pub struct WindowSettings {
    pub active: Option<bool>,
    pub content_protected: Option<bool>,
    pub decorated: Option<bool>,
    /// Bits of the enabled window buttons; only bits that name a button.
    pub enabled_buttons: Option<u32>,
    /// Borderless fullscreen on the current monitor.
    pub fullscreen: bool,
    pub position: Option<(i32, i32)>,
    pub inner_size: Option<(u32, u32)>,
    pub min_inner_size: Option<(u32, u32)>,
    pub max_inner_size: Option<(u32, u32)>,
    pub level: Option<WsiWindowLevel>,
    pub maximized: Option<bool>,
    pub resizable: Option<bool>,
    pub resize_increments: Option<(u32, u32)>,
    pub theme: Option<WsiWindowTheme>,
    pub title: Option<String>,
    pub transparent: Option<bool>,
    pub visible: Option<bool>,
}

/// The first of two optional values that is there.
pub open spec fn first_of<T>(first: Option<T>, second: Option<T>) -> Option<T> {
    if first is Some {
        first
    } else {
        second
    }
}

/// The first of two optional values that is there.
pub fn pick<T>(first: Option<T>, second: Option<T>) -> (r: Option<T>)
    ensures
        r == first_of(first, second),
{
    match first {
        Some(value) => Some(value),
        None => second,
    }
}

impl WindowSettings {
    /// Settings that say nothing: every native default stays.
    pub open spec fn spec_new() -> WindowSettings {
        WindowSettings {
            active: None,
            content_protected: None,
            decorated: None,
            enabled_buttons: None,
            fullscreen: false,
            position: None,
            inner_size: None,
            min_inner_size: None,
            max_inner_size: None,
            level: None,
            maximized: None,
            resizable: None,
            resize_increments: None,
            theme: None,
            title: None,
            transparent: None,
            visible: None,
        }
    }

    /// Settings that say nothing: every native default stays.
    pub fn new() -> (r: WindowSettings)
        ensures
            r == WindowSettings::spec_new(),
    {
        WindowSettings {
            active: None,
            content_protected: None,
            decorated: None,
            enabled_buttons: None,
            fullscreen: false,
            position: None,
            inner_size: None,
            min_inner_size: None,
            max_inner_size: None,
            level: None,
            maximized: None,
            resizable: None,
            resize_increments: None,
            theme: None,
            title: None,
            transparent: None,
            visible: None,
        }
    }

    /// Sets the title.
    pub fn with_title(self, title: String) -> (r: WindowSettings)
        ensures
            r == (WindowSettings { title: Some(title), ..self }),
    {
        let mut settings = self;
        settings.title = Some(title);
        settings
    }
}

/// Options that a caller may give when creating a window.
#[derive(Clone, Debug, PartialEq, Eq)]
pub struct WsiCreateWindowOptions {
    pub active: Option<bool>,
    pub content_protected: Option<bool>,
    pub decorated: Option<bool>,
    pub enabled_buttons: Option<u32>,
    pub fullscreen: Option<bool>,
    pub position: Option<(i32, i32)>,
    pub inner_size: Option<(u32, u32)>,
    pub min_inner_size: Option<(u32, u32)>,
    pub max_inner_size: Option<(u32, u32)>,
    pub level: Option<WsiWindowLevel>,
    pub maximized: Option<bool>,
    pub resizable: Option<bool>,
    pub resize_increments: Option<(u32, u32)>,
    pub theme: Option<WsiWindowTheme>,
    pub title: Option<String>,
    pub transparent: Option<bool>,
    pub visible: Option<bool>,
}

impl WsiCreateWindowOptions {
    /// The settings that result from applying these options on top of `builder`:
    /// an option that is given replaces the setting, one that is not leaves it.
    /// Unknown button bits are dropped. Fullscreen can be switched on, not off.
    pub open spec fn applied_to(self, builder: WindowSettings) -> WindowSettings {
        WindowSettings {
            active: first_of(self.active, builder.active),
            content_protected: first_of(self.content_protected, builder.content_protected),
            decorated: first_of(self.decorated, builder.decorated),
            enabled_buttons: match self.enabled_buttons {
                Some(bits) => Some(bits & window_button_bits()),
                None => builder.enabled_buttons,
            },
            fullscreen: self.fullscreen == Some(true) || builder.fullscreen,
            position: first_of(self.position, builder.position),
            inner_size: first_of(self.inner_size, builder.inner_size),
            min_inner_size: first_of(self.min_inner_size, builder.min_inner_size),
            max_inner_size: first_of(self.max_inner_size, builder.max_inner_size),
            level: first_of(self.level, builder.level),
            maximized: first_of(self.maximized, builder.maximized),
            resizable: first_of(self.resizable, builder.resizable),
            resize_increments: first_of(self.resize_increments, builder.resize_increments),
            theme: first_of(self.theme, builder.theme),
            title: first_of(self.title, builder.title),
            transparent: first_of(self.transparent, builder.transparent),
            visible: first_of(self.visible, builder.visible),
        }
    }

    /// Applies the options that are given on top of `builder`.
    pub fn into_window_builder(self, builder: WindowSettings) -> (r: WindowSettings)
        ensures
            r == self.applied_to(builder),
    {
        WindowSettings {
            active: pick(self.active, builder.active),
            content_protected: pick(self.content_protected, builder.content_protected),
            decorated: pick(self.decorated, builder.decorated),
            enabled_buttons: match self.enabled_buttons {
                Some(bits) => Some(truncate_window_buttons(bits)),
                None => builder.enabled_buttons,
            },
            fullscreen: match self.fullscreen {
                Some(true) => true,
                _ => builder.fullscreen,
            },
            position: pick(self.position, builder.position),
            inner_size: pick(self.inner_size, builder.inner_size),
            min_inner_size: pick(self.min_inner_size, builder.min_inner_size),
            max_inner_size: pick(self.max_inner_size, builder.max_inner_size),
            level: pick(self.level, builder.level),
            maximized: pick(self.maximized, builder.maximized),
            resizable: pick(self.resizable, builder.resizable),
            resize_increments: pick(self.resize_increments, builder.resize_increments),
            theme: pick(self.theme, builder.theme),
            title: pick(self.title, builder.title),
            transparent: pick(self.transparent, builder.transparent),
            visible: pick(self.visible, builder.visible),
        }
    }
}

} // verus!
