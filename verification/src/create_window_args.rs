//! The short form of window creation arguments.

use crate::window::{first_of, pick, WindowSettings, WsiWindowLevel};
use vstd::prelude::*;

verus! {

/// Arguments for creating a window, for callers that set the common attributes only.
#[derive(Clone, Debug, PartialEq, Eq)]
pub struct CreateWindowArgs {
    pub inner_size: Option<(u32, u32)>,
    pub min_inner_size: Option<(u32, u32)>,
    pub max_inner_size: Option<(u32, u32)>,
    pub position: Option<(i32, i32)>,
    pub resizable: Option<bool>,
    pub title: Option<String>,
    pub fullscreen: Option<bool>,
    pub maximized: Option<bool>,
    pub visible: Option<bool>,
    pub transparent: Option<bool>,
    pub decorated: Option<bool>,
    pub always_on_top: Option<bool>,
}

/// The window level that stands for "always on top" being switched on or off.
pub open spec fn level_for_always_on_top(always_on_top: bool) -> WsiWindowLevel {
    if always_on_top {
        WsiWindowLevel::AlwaysOnTop
    } else {
        WsiWindowLevel::Normal
    }
}

impl CreateWindowArgs {
    /// The settings that result from applying these arguments on top of `builder`:
    /// an argument that is given replaces the setting, one that is not leaves it.
    /// Fullscreen can be switched on, not off. "Always on top" sets the window level.
    pub open spec fn applied_to(self, builder: WindowSettings) -> WindowSettings {
        WindowSettings {
            inner_size: first_of(self.inner_size, builder.inner_size),
            min_inner_size: first_of(self.min_inner_size, builder.min_inner_size),
            max_inner_size: first_of(self.max_inner_size, builder.max_inner_size),
            position: first_of(self.position, builder.position),
            resizable: first_of(self.resizable, builder.resizable),
            title: first_of(self.title, builder.title),
            fullscreen: self.fullscreen == Some(true) || builder.fullscreen,
            maximized: first_of(self.maximized, builder.maximized),
            visible: first_of(self.visible, builder.visible),
            transparent: first_of(self.transparent, builder.transparent),
            decorated: first_of(self.decorated, builder.decorated),
            level: match self.always_on_top {
                Some(always_on_top) => Some(level_for_always_on_top(always_on_top)),
                None => builder.level,
            },
            ..builder
        }
    }

    /// Applies the arguments that are given on top of `builder`.
    pub fn into_window_builder(self, builder: WindowSettings) -> (r: WindowSettings)
        ensures
            r == self.applied_to(builder),
    {
        WindowSettings {
            inner_size: pick(self.inner_size, builder.inner_size),
            min_inner_size: pick(self.min_inner_size, builder.min_inner_size),
            max_inner_size: pick(self.max_inner_size, builder.max_inner_size),
            position: pick(self.position, builder.position),
            resizable: pick(self.resizable, builder.resizable),
            title: pick(self.title, builder.title),
            fullscreen: match self.fullscreen {
                Some(true) => true,
                _ => builder.fullscreen,
            },
            maximized: pick(self.maximized, builder.maximized),
            visible: pick(self.visible, builder.visible),
            transparent: pick(self.transparent, builder.transparent),
            decorated: pick(self.decorated, builder.decorated),
            level: match self.always_on_top {
                Some(true) => Some(WsiWindowLevel::AlwaysOnTop),
                Some(false) => Some(WsiWindowLevel::Normal),
                None => builder.level,
            },
            active: builder.active,
            content_protected: builder.content_protected,
            enabled_buttons: builder.enabled_buttons,
            resize_increments: builder.resize_increments,
            theme: builder.theme,
        }
    }
}

} // verus!
