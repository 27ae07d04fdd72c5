use deno_wsi::surface::{
    alpha_modes_from_native, check_suboptimal, present_modes_from_native,
    serialize_alpha_modes, serialize_present_modes, GpuSurfaceAlphaMode,
    GpuSurfaceCapabilities, GpuSurfaceConfiguration, GpuSurfacePresentMode, SurfaceError,
    WebGpuSurface,
};
use wgpu_core::id::{SurfaceId, TypedId};
use wgpu_types::{
    CompositeAlphaMode, Extent3d, PresentMode, SurfaceCapabilities, SurfaceStatus, TextureFormat,
    TextureUsages,
};

fn present_pairs() -> Vec<(GpuSurfacePresentMode, PresentMode, &'static str)> {
    vec![
        (GpuSurfacePresentMode::AutoVsync, PresentMode::AutoVsync, "auto-vsync"),
        (GpuSurfacePresentMode::AutoNoVsync, PresentMode::AutoNoVsync, "auto-no-vsync"),
        (GpuSurfacePresentMode::Fifo, PresentMode::Fifo, "fifo"),
        (GpuSurfacePresentMode::FifoRelaxed, PresentMode::FifoRelaxed, "fifo-relaxed"),
        (GpuSurfacePresentMode::Immediate, PresentMode::Immediate, "immediate"),
        (GpuSurfacePresentMode::Mailbox, PresentMode::Mailbox, "mailbox"),
    ]
}

fn alpha_pairs() -> Vec<(GpuSurfaceAlphaMode, CompositeAlphaMode, &'static str)> {
    vec![
        (GpuSurfaceAlphaMode::Auto, CompositeAlphaMode::Auto, "auto"),
        (GpuSurfaceAlphaMode::Opaque, CompositeAlphaMode::Opaque, "opaque"),
        (GpuSurfaceAlphaMode::PreMultiplied, CompositeAlphaMode::PreMultiplied, "pre-multiplied"),
        (
            GpuSurfaceAlphaMode::PostMultiplied,
            CompositeAlphaMode::PostMultiplied,
            "post-multiplied",
        ),
        (GpuSurfaceAlphaMode::Inherit, CompositeAlphaMode::Inherit, "inherit"),
    ]
}

#[test]
fn present_modes_map_both_ways() {
    for (mode, native, name) in present_pairs() {
        assert_eq!(PresentMode::from(mode), native);
        assert_eq!(GpuSurfacePresentMode::from(native), mode);
        assert_eq!(GpuSurfacePresentMode::from(PresentMode::from(mode)), mode);
        assert_eq!(mode.name(), name);
    }
}

#[test]
fn alpha_modes_map_both_ways() {
    for (mode, native, name) in alpha_pairs() {
        assert_eq!(CompositeAlphaMode::from(mode), native);
        assert_eq!(GpuSurfaceAlphaMode::from(native), mode);
        assert_eq!(GpuSurfaceAlphaMode::from(CompositeAlphaMode::from(mode)), mode);
        assert_eq!(mode.name(), name);
    }
}

#[test]
fn mode_lists_keep_their_order() {
    let present = vec![PresentMode::Mailbox, PresentMode::Fifo, PresentMode::Mailbox];
    assert_eq!(
        present_modes_from_native(&present),
        vec![
            GpuSurfacePresentMode::Mailbox,
            GpuSurfacePresentMode::Fifo,
            GpuSurfacePresentMode::Mailbox
        ]
    );
    assert_eq!(serialize_present_modes(&present), vec!["mailbox", "fifo", "mailbox"]);
    let alpha = vec![CompositeAlphaMode::Inherit, CompositeAlphaMode::Opaque];
    assert_eq!(
        alpha_modes_from_native(&alpha),
        vec![GpuSurfaceAlphaMode::Inherit, GpuSurfaceAlphaMode::Opaque]
    );
    assert_eq!(serialize_alpha_modes(&alpha), vec!["inherit", "opaque"]);
    assert_eq!(present_modes_from_native(&Vec::new()), Vec::new());
    assert_eq!(serialize_alpha_modes(&Vec::new()), Vec::<&str>::new());
}

#[test]
fn all_mode_names_are_serialized() {
    let present: Vec<PresentMode> = present_pairs().into_iter().map(|p| p.1).collect();
    let names: Vec<&str> = present_pairs().into_iter().map(|p| p.2).collect();
    assert_eq!(serialize_present_modes(&present), names);
    let alpha: Vec<CompositeAlphaMode> = alpha_pairs().into_iter().map(|p| p.1).collect();
    let names: Vec<&str> = alpha_pairs().into_iter().map(|p| p.2).collect();
    assert_eq!(serialize_alpha_modes(&alpha), names);
}

#[test]
fn capabilities_keep_formats_and_translate_modes() {
    let caps = SurfaceCapabilities {
        formats: vec![TextureFormat::Bgra8Unorm, TextureFormat::Rgba8UnormSrgb],
        present_modes: vec![PresentMode::Fifo, PresentMode::Immediate],
        alpha_modes: vec![CompositeAlphaMode::Opaque],
    };
    let caps = GpuSurfaceCapabilities::from_native(caps);
    assert_eq!(caps.formats, vec![TextureFormat::Bgra8Unorm, TextureFormat::Rgba8UnormSrgb]);
    assert_eq!(
        caps.present_modes,
        vec![GpuSurfacePresentMode::Fifo, GpuSurfacePresentMode::Immediate]
    );
    assert_eq!(caps.alpha_modes, vec![GpuSurfaceAlphaMode::Opaque]);
}

#[test]
fn configuration_takes_width_and_height_from_the_size() {
    let config = GpuSurfaceConfiguration {
        usage: TextureUsages::RENDER_ATTACHMENT | TextureUsages::COPY_SRC,
        format: TextureFormat::Bgra8Unorm,
        size: Extent3d { width: 640, height: 480, depth_or_array_layers: 3 },
        present_mode: GpuSurfacePresentMode::Mailbox,
        alpha_mode: GpuSurfaceAlphaMode::PreMultiplied,
        view_formats: vec![TextureFormat::Bgra8UnormSrgb],
    };
    let native = config.into_native();
    assert_eq!(native.usage, TextureUsages::RENDER_ATTACHMENT | TextureUsages::COPY_SRC);
    assert_eq!(native.format, TextureFormat::Bgra8Unorm);
    assert_eq!(native.width, 640);
    assert_eq!(native.height, 480);
    assert_eq!(native.present_mode, PresentMode::Mailbox);
    assert_eq!(native.alpha_mode, CompositeAlphaMode::PreMultiplied);
    assert_eq!(native.view_formats, vec![TextureFormat::Bgra8UnormSrgb]);
}

#[test]
fn frame_status_is_sorted_into_usable_and_failed() {
    assert_eq!(check_suboptimal(SurfaceStatus::Good), Ok(false));
    assert_eq!(check_suboptimal(SurfaceStatus::Suboptimal), Ok(true));
    assert_eq!(check_suboptimal(SurfaceStatus::Timeout), Err(SurfaceError::Timeout));
    assert_eq!(check_suboptimal(SurfaceStatus::Outdated), Err(SurfaceError::Outdated));
    assert_eq!(check_suboptimal(SurfaceStatus::Lost), Err(SurfaceError::Lost));
}

#[test]
fn surface_errors_have_their_messages() {
    assert_eq!(SurfaceError::Timeout.message(), "Unable to get the next frame, timed out.");
    assert_eq!(SurfaceError::Outdated.message(), "The surface under the swap chain has changed.");
    assert_eq!(SurfaceError::Lost.message(), "The surface under the swap chain is lost.");
}

#[test]
fn surface_resource_has_its_name() {
    let id = SurfaceId::zip(3, 1, wgpu_types::Backend::Gl);
    let surface = WebGpuSurface(id);
    assert_eq!(surface.name(), "webGPUSurface");
    assert_eq!(surface.0, id);
}
