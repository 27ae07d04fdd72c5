use deno_wsi::device_ids::DeviceIds;
use deno_wsi::input::{
    MouseButtonWire, WsiButtonState, WsiDeviceEventFilter, WsiMouseButton, WsiTouchPhase,
};
use deno_wsi::serialize_device_id::serialize_device_id;
use deno_wsi::version::{
    denog_long, denog_short, get_user_agent, is_canary, release_version_or_canary_commit_hash,
    BuildInfo,
};
use winit::event::{ElementState, MouseButton, TouchPhase};
use winit::event_loop::DeviceEventFilter;

fn build(canary: bool) -> BuildInfo {
    BuildInfo {
        semver: "1.31.1".to_string(),
        git_commit_hash: "0123456789abcdef0123456789abcdef01234567".to_string(),
        canary,
    }
}

#[test]
fn release_build_shows_the_release_version() {
    let build = build(false);
    assert!(build.is_wf());
    assert!(!is_canary(&build));
    assert_eq!(denog_short(&build), "1.31.1");
    assert_eq!(denog_long(&build), "denog-1.31.1");
    assert_eq!(get_user_agent(&build), "Deno/denog-1.31.1");
    assert_eq!(release_version_or_canary_commit_hash(&build), "1.31.1");
}

#[test]
fn canary_build_shows_the_short_commit_hash() {
    let build = build(true);
    assert!(build.is_wf());
    assert!(is_canary(&build));
    assert_eq!(denog_short(&build), "1.31.1+0123456");
    assert_eq!(denog_long(&build), "denog-1.31.1+0123456");
    assert_eq!(get_user_agent(&build), "Deno/denog-1.31.1+0123456");
    assert_eq!(
        release_version_or_canary_commit_hash(&build),
        "0123456789abcdef0123456789abcdef01234567"
    );
}

#[test]
fn commit_hash_is_cut_by_bytes() {
    let exact = BuildInfo {
        semver: "2.0.0".to_string(),
        git_commit_hash: "abcdefg".to_string(),
        canary: true,
    };
    assert!(exact.is_wf());
    assert_eq!(denog_short(&exact), "2.0.0+abcdefg");
    let two_byte_chars = BuildInfo {
        semver: "2.0.0".to_string(),
        git_commit_hash: "abcde\u{e9}fgh".to_string(),
        canary: true,
    };
    assert!(two_byte_chars.is_wf());
    assert_eq!(denog_short(&two_byte_chars), "2.0.0+abcde\u{e9}");
}

#[test]
fn hash_that_cannot_be_cut_is_told_apart() {
    let short = BuildInfo {
        semver: "2.0.0".to_string(),
        git_commit_hash: "abc".to_string(),
        canary: true,
    };
    assert!(!short.is_wf());
    let split_char = BuildInfo {
        semver: "2.0.0".to_string(),
        git_commit_hash: "abcdef\u{e9}gh".to_string(),
        canary: true,
    };
    assert!(!split_char.is_wf());
    let release = BuildInfo { canary: false, ..short };
    assert!(release.is_wf());
    assert_eq!(denog_short(&release), "2.0.0");
}

#[test]
fn devices_are_numbered_from_one_in_order_of_appearance() {
    let mut ids: DeviceIds<u64> = DeviceIds::new();
    assert_eq!(ids.get(900), 1);
    assert_eq!(ids.get(17), 2);
    assert_eq!(ids.get(900), 1);
    assert_eq!(ids.get(3), 3);
    assert_eq!(ids.get(17), 2);
    assert_eq!(ids.get(3), 3);
    assert_eq!(ids.get(4), 4);
}

#[test]
fn devices_are_keyed_by_native_identifiers_of_any_kind() {
    let mut ids: DeviceIds<(u8, u8)> = DeviceIds::new();
    assert_eq!(ids.get((1, 2)), 1);
    assert_eq!(ids.get((2, 1)), 2);
    assert_eq!(ids.get((1, 2)), 1);
}

#[test]
fn device_table_is_made_on_first_use() {
    let mut state: Option<DeviceIds<u32>> = None;
    assert_eq!(serialize_device_id(&mut state, 50), 1);
    assert!(state.is_some());
    assert_eq!(serialize_device_id(&mut state, 60), 2);
    assert_eq!(serialize_device_id(&mut state, 50), 1);
    assert_eq!(serialize_device_id(&mut state, 70), 3);
    let mut ids = state.unwrap();
    assert_eq!(ids.get(60), 2);
    assert_eq!(ids.get(80), 4);
}

#[test]
fn button_state_maps_from_the_native_state() {
    assert_eq!(WsiButtonState::from(ElementState::Pressed), WsiButtonState::Pressed);
    assert_eq!(WsiButtonState::from(ElementState::Released), WsiButtonState::Released);
    assert_eq!(WsiButtonState::Pressed.name(), "pressed");
    assert_eq!(WsiButtonState::Released.name(), "released");
}

#[test]
fn device_event_filter_maps_to_the_native_filter() {
    assert_eq!(DeviceEventFilter::from(WsiDeviceEventFilter::Always), DeviceEventFilter::Always);
    assert_eq!(
        DeviceEventFilter::from(WsiDeviceEventFilter::Unfocused),
        DeviceEventFilter::Unfocused
    );
    assert_eq!(DeviceEventFilter::from(WsiDeviceEventFilter::Never), DeviceEventFilter::Never);
}

#[test]
fn mouse_button_maps_from_the_native_button() {
    assert_eq!(WsiMouseButton::from(MouseButton::Left), WsiMouseButton::Left);
    assert_eq!(WsiMouseButton::from(MouseButton::Right), WsiMouseButton::Right);
    assert_eq!(WsiMouseButton::from(MouseButton::Middle), WsiMouseButton::Middle);
    assert_eq!(WsiMouseButton::from(MouseButton::Other(9)), WsiMouseButton::Other(9));
}

#[test]
fn mouse_button_goes_over_the_wire_by_name_or_number() {
    assert_eq!(WsiMouseButton::Left.serialize(), MouseButtonWire::Name("left"));
    assert_eq!(WsiMouseButton::Right.serialize(), MouseButtonWire::Name("right"));
    assert_eq!(WsiMouseButton::Middle.serialize(), MouseButtonWire::Name("middle"));
    assert_eq!(WsiMouseButton::Other(0).serialize(), MouseButtonWire::Number(0));
    assert_eq!(WsiMouseButton::Other(65535).serialize(), MouseButtonWire::Number(65535));
}

#[test]
fn touch_phase_maps_from_the_native_phase() {
    assert_eq!(WsiTouchPhase::from(TouchPhase::Started), WsiTouchPhase::Started);
    assert_eq!(WsiTouchPhase::from(TouchPhase::Moved), WsiTouchPhase::Moved);
    assert_eq!(WsiTouchPhase::from(TouchPhase::Ended), WsiTouchPhase::Ended);
    assert_eq!(WsiTouchPhase::from(TouchPhase::Cancelled), WsiTouchPhase::Cancelled);
    assert_eq!(WsiTouchPhase::Started.name(), "started");
    assert_eq!(WsiTouchPhase::Moved.name(), "moved");
    assert_eq!(WsiTouchPhase::Ended.name(), "ended");
    assert_eq!(WsiTouchPhase::Cancelled.name(), "cancelled");
}

#[test]
fn try_get_numbers_devices_like_get() {
    let mut ids: DeviceIds<u16> = DeviceIds::new();
    assert_eq!(ids.try_get(7), Some(1));
    assert_eq!(ids.try_get(8), Some(2));
    assert_eq!(ids.try_get(7), Some(1));
    assert_eq!(ids.get(8), 2);
    assert_eq!(ids.get(9), 3);
    assert_eq!(ids.try_get(9), Some(3));
}
