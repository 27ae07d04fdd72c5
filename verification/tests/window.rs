use deno_wsi::create_window_args::CreateWindowArgs;
use deno_wsi::ops::{
    create_window_settings, try_borrow_event_loop_proxy, UNAVAILABLE_EXIT_CODE,
};
use deno_wsi::window::{
    pick, WindowSettings, WsiCreateWindowOptions, WsiWindowLevel, WsiWindowTheme,
};
use winit::window::{Theme, WindowLevel};

fn no_options() -> WsiCreateWindowOptions {
    WsiCreateWindowOptions {
        active: None,
        content_protected: None,
        decorated: None,
        enabled_buttons: None,
        fullscreen: None,
        position: None,
        inner_size: None,
        min_inner_size: None,
        max_inner_size: None,
        level: None,
        maximized: None,
        resizable: None,
        resize_increments: None,
        theme: None,
        title: None,
        transparent: None,
        visible: None,
    }
}

fn no_args() -> CreateWindowArgs {
    CreateWindowArgs {
        inner_size: None,
        min_inner_size: None,
        max_inner_size: None,
        position: None,
        resizable: None,
        title: None,
        fullscreen: None,
        maximized: None,
        visible: None,
        transparent: None,
        decorated: None,
        always_on_top: None,
    }
}

fn full_settings() -> WindowSettings {
    WindowSettings {
        active: Some(false),
        content_protected: Some(true),
        decorated: Some(false),
        enabled_buttons: Some(0b101),
        fullscreen: true,
        position: Some((-5, 6)),
        inner_size: Some((800, 600)),
        min_inner_size: Some((80, 60)),
        max_inner_size: Some((8000, 6000)),
        level: Some(WsiWindowLevel::AlwaysOnBottom),
        maximized: Some(true),
        resizable: Some(false),
        resize_increments: Some((8, 6)),
        theme: Some(WsiWindowTheme::Dark),
        title: Some("kept".to_string()),
        transparent: Some(true),
        visible: Some(false),
    }
}

#[test]
fn new_settings_say_nothing() {
    let settings = WindowSettings::new();
    assert_eq!(settings.title, None);
    assert_eq!(settings.inner_size, None);
    assert!(!settings.fullscreen);
    assert_eq!(settings, no_options().into_window_builder(WindowSettings::new()));
}

#[test]
fn with_title_sets_only_the_title() {
    let settings = full_settings().with_title("changed".to_string());
    assert_eq!(
        settings,
        WindowSettings { title: Some("changed".to_string()), ..full_settings() }
    );
}

#[test]
fn pick_prefers_the_first_value() {
    assert_eq!(pick(Some(1), Some(2)), Some(1));
    assert_eq!(pick(Some(1), None), Some(1));
    assert_eq!(pick(None, Some(2)), Some(2));
    assert_eq!(pick::<u8>(None, None), None);
}

#[test]
fn absent_options_leave_the_settings() {
    assert_eq!(no_options().into_window_builder(full_settings()), full_settings());
}

#[test]
fn given_options_replace_the_settings() {
    let options = WsiCreateWindowOptions {
        active: Some(true),
        content_protected: Some(false),
        decorated: Some(true),
        enabled_buttons: Some(0b010),
        fullscreen: Some(true),
        position: Some((1, -2)),
        inner_size: Some((3, 4)),
        min_inner_size: Some((1, 2)),
        max_inner_size: Some((5, 6)),
        level: Some(WsiWindowLevel::AlwaysOnTop),
        maximized: Some(false),
        resizable: Some(true),
        resize_increments: Some((7, 8)),
        theme: Some(WsiWindowTheme::Light),
        title: Some("given".to_string()),
        transparent: Some(false),
        visible: Some(true),
    };
    let expected = WindowSettings {
        active: Some(true),
        content_protected: Some(false),
        decorated: Some(true),
        enabled_buttons: Some(0b010),
        fullscreen: true,
        position: Some((1, -2)),
        inner_size: Some((3, 4)),
        min_inner_size: Some((1, 2)),
        max_inner_size: Some((5, 6)),
        level: Some(WsiWindowLevel::AlwaysOnTop),
        maximized: Some(false),
        resizable: Some(true),
        resize_increments: Some((7, 8)),
        theme: Some(WsiWindowTheme::Light),
        title: Some("given".to_string()),
        transparent: Some(false),
        visible: Some(true),
    };
    assert_eq!(options.clone().into_window_builder(full_settings()), expected);
    assert_eq!(options.into_window_builder(WindowSettings::new()), expected);
}

#[test]
fn unknown_button_bits_are_dropped() {
    let options = WsiCreateWindowOptions { enabled_buttons: Some(0xffff_fff5), ..no_options() };
    let settings = options.into_window_builder(WindowSettings::new());
    assert_eq!(settings.enabled_buttons, Some(0b101));
    let options = WsiCreateWindowOptions { enabled_buttons: Some(8), ..no_options() };
    assert_eq!(options.into_window_builder(WindowSettings::new()).enabled_buttons, Some(0));
    let options = WsiCreateWindowOptions { enabled_buttons: Some(7), ..no_options() };
    assert_eq!(options.into_window_builder(WindowSettings::new()).enabled_buttons, Some(7));
}

#[test]
fn fullscreen_is_switched_on_but_never_off() {
    let off = WsiCreateWindowOptions { fullscreen: Some(false), ..no_options() };
    assert!(off.clone().into_window_builder(full_settings()).fullscreen);
    assert!(!off.into_window_builder(WindowSettings::new()).fullscreen);
    let on = WsiCreateWindowOptions { fullscreen: Some(true), ..no_options() };
    assert!(on.into_window_builder(WindowSettings::new()).fullscreen);
    assert!(!no_options().into_window_builder(WindowSettings::new()).fullscreen);
}

#[test]
fn absent_args_leave_the_settings() {
    assert_eq!(no_args().into_window_builder(full_settings()), full_settings());
}

#[test]
fn given_args_replace_the_settings() {
    let args = CreateWindowArgs {
        inner_size: Some((3, 4)),
        min_inner_size: Some((1, 2)),
        max_inner_size: Some((5, 6)),
        position: Some((1, -2)),
        resizable: Some(true),
        title: Some("given".to_string()),
        fullscreen: Some(true),
        maximized: Some(false),
        visible: Some(true),
        transparent: Some(false),
        decorated: Some(true),
        always_on_top: Some(true),
    };
    let expected = WindowSettings {
        inner_size: Some((3, 4)),
        min_inner_size: Some((1, 2)),
        max_inner_size: Some((5, 6)),
        position: Some((1, -2)),
        resizable: Some(true),
        title: Some("given".to_string()),
        fullscreen: true,
        maximized: Some(false),
        visible: Some(true),
        transparent: Some(false),
        decorated: Some(true),
        level: Some(WsiWindowLevel::AlwaysOnTop),
        ..full_settings()
    };
    assert_eq!(args.into_window_builder(full_settings()), expected);
}

#[test]
fn always_on_top_sets_the_level() {
    let on = CreateWindowArgs { always_on_top: Some(true), ..no_args() };
    assert_eq!(
        on.into_window_builder(WindowSettings::new()).level,
        Some(WsiWindowLevel::AlwaysOnTop)
    );
    let off = CreateWindowArgs { always_on_top: Some(false), ..no_args() };
    assert_eq!(off.into_window_builder(full_settings()).level, Some(WsiWindowLevel::Normal));
    assert_eq!(
        no_args().into_window_builder(full_settings()).level,
        Some(WsiWindowLevel::AlwaysOnBottom)
    );
    let fullscreen_off = CreateWindowArgs { fullscreen: Some(false), ..no_args() };
    assert!(!fullscreen_off.into_window_builder(WindowSettings::new()).fullscreen);
}

#[test]
fn window_level_maps_to_the_native_level() {
    assert_eq!(WindowLevel::from(WsiWindowLevel::AlwaysOnBottom), WindowLevel::AlwaysOnBottom);
    assert_eq!(WindowLevel::from(WsiWindowLevel::Normal), WindowLevel::Normal);
    assert_eq!(WindowLevel::from(WsiWindowLevel::AlwaysOnTop), WindowLevel::AlwaysOnTop);
}

#[test]
fn theme_maps_to_the_native_theme_and_back() {
    assert_eq!(Theme::from(WsiWindowTheme::Light), Theme::Light);
    assert_eq!(Theme::from(WsiWindowTheme::Dark), Theme::Dark);
    assert_eq!(WsiWindowTheme::from(Theme::Light), WsiWindowTheme::Light);
    assert_eq!(WsiWindowTheme::from(Theme::Dark), WsiWindowTheme::Dark);
    for theme in [WsiWindowTheme::Light, WsiWindowTheme::Dark] {
        assert_eq!(WsiWindowTheme::from(Theme::from(theme)), theme);
    }
}

#[test]
fn window_without_options_gets_the_default_title() {
    let settings = create_window_settings(None);
    assert_eq!(
        settings,
        WindowSettings { title: Some("Denog".to_string()), ..WindowSettings::new() }
    );
}

#[test]
fn options_are_applied_over_the_default_title() {
    let untitled = WsiCreateWindowOptions { inner_size: Some((800, 600)), ..no_options() };
    assert_eq!(
        create_window_settings(Some(untitled)),
        WindowSettings {
            title: Some("Denog".to_string()),
            inner_size: Some((800, 600)),
            ..WindowSettings::new()
        }
    );
    let titled = WsiCreateWindowOptions { title: Some("mine".to_string()), ..no_options() };
    assert_eq!(
        create_window_settings(Some(titled)),
        WindowSettings { title: Some("mine".to_string()), ..WindowSettings::new() }
    );
}

#[test]
fn proxy_is_handed_out_when_the_bridge_exists() {
    let r = try_borrow_event_loop_proxy(Some(5u8), "Deno.wsi.nextEvent");
    assert!(matches!(r, Ok(5)));
}

#[test]
fn missing_bridge_names_the_operation_and_the_exit_code() {
    let r = try_borrow_event_loop_proxy::<u8>(None, "Deno.wsi.createWindow");
    let unavailable = r.err().unwrap();
    assert_eq!(
        unavailable.message,
        "WSI API 'Deno.wsi.createWindow'. Only available in the main worker and the --wsi flag must be provided."
    );
    assert_eq!(unavailable.exit_code, 70);
    assert_eq!(UNAVAILABLE_EXIT_CODE, 70);
}
