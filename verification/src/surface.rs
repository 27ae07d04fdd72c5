//! Presentation surfaces: the modes a surface offers, its configuration, and the
//! status of a frame.

use vstd::prelude::*;
use vstd::std_specs::convert::FromSpec;
use wgpu_types::{
    CompositeAlphaMode, Extent3d, PresentMode, SurfaceCapabilities, SurfaceConfiguration,
    SurfaceStatus, TextureFormat, TextureUsages,
};

verus! {

#[verifier::external_type_specification]
pub struct ExPresentMode(PresentMode);

#[verifier::external_type_specification]
pub struct ExCompositeAlphaMode(CompositeAlphaMode);

#[verifier::external_type_specification]
pub struct ExSurfaceStatus(SurfaceStatus);

#[verifier::external_type_specification]
#[verifier::external_body]
pub struct ExTextureFormat(TextureFormat);

#[verifier::external_type_specification]
#[verifier::external_body]
pub struct ExTextureUsages(TextureUsages);

#[verifier::external_type_specification]
pub struct ExExtent3d(Extent3d);

#[verifier::external_type_specification]
#[verifier::reject_recursive_types(V)]
pub struct ExSurfaceConfiguration<V>(SurfaceConfiguration<V>);

#[verifier::external_type_specification]
pub struct ExSurfaceCapabilities(SurfaceCapabilities);

#[verifier::external_type_specification]
#[verifier::external_body]
pub struct ExSurface(wgpu_core::instance::Surface);

#[verifier::external_type_specification]
#[verifier::external_body]
#[verifier::reject_recursive_types(T)]
pub struct ExId<T>(wgpu_core::id::Id<T>);

/// A presentation surface, as the resource table holds it.
pub struct WebGpuSurface(pub wgpu_core::id::SurfaceId);

impl WebGpuSurface {
    /// The name of the resource kind.
    pub fn name(&self) -> (r: &'static str)
        ensures
            r@ == "webGPUSurface"@,
    {
        "webGPUSurface"
    }
}

/// When frames are handed to the display.
#[derive(Clone, Copy, Debug, PartialEq, Eq, Structural)]
pub enum GpuSurfacePresentMode {
    AutoVsync,
    AutoNoVsync,
    Fifo,
    FifoRelaxed,
    Immediate,
    Mailbox,
}

/// The name under which a present mode goes over the wire.
pub open spec fn present_mode_name(mode: GpuSurfacePresentMode) -> Seq<char> {
    match mode {
        GpuSurfacePresentMode::AutoVsync => "auto-vsync"@,
        GpuSurfacePresentMode::AutoNoVsync => "auto-no-vsync"@,
        GpuSurfacePresentMode::Fifo => "fifo"@,
        GpuSurfacePresentMode::FifoRelaxed => "fifo-relaxed"@,
        GpuSurfacePresentMode::Immediate => "immediate"@,
        GpuSurfacePresentMode::Mailbox => "mailbox"@,
    }
}

impl GpuSurfacePresentMode {
    /// The name under which the mode goes over the wire.
    pub fn name(&self) -> (r: &'static str)
        ensures
            r@ == present_mode_name(*self),
    {
        match self {
            GpuSurfacePresentMode::AutoVsync => "auto-vsync",
            GpuSurfacePresentMode::AutoNoVsync => "auto-no-vsync",
            GpuSurfacePresentMode::Fifo => "fifo",
            GpuSurfacePresentMode::FifoRelaxed => "fifo-relaxed",
            GpuSurfacePresentMode::Immediate => "immediate",
            GpuSurfacePresentMode::Mailbox => "mailbox",
        }
    }
}

impl From<GpuSurfacePresentMode> for PresentMode {
    fn from(value: GpuSurfacePresentMode) -> (r: PresentMode) {
        match value {
            GpuSurfacePresentMode::AutoVsync => PresentMode::AutoVsync,
            GpuSurfacePresentMode::AutoNoVsync => PresentMode::AutoNoVsync,
            GpuSurfacePresentMode::Fifo => PresentMode::Fifo,
            GpuSurfacePresentMode::FifoRelaxed => PresentMode::FifoRelaxed,
            GpuSurfacePresentMode::Immediate => PresentMode::Immediate,
            GpuSurfacePresentMode::Mailbox => PresentMode::Mailbox,
        }
    }
}

impl vstd::std_specs::convert::FromSpecImpl<GpuSurfacePresentMode> for PresentMode {
    open spec fn obeys_from_spec() -> bool {
        true
    }

    open spec fn from_spec(value: GpuSurfacePresentMode) -> PresentMode {
        match value {
            GpuSurfacePresentMode::AutoVsync => PresentMode::AutoVsync,
            GpuSurfacePresentMode::AutoNoVsync => PresentMode::AutoNoVsync,
            GpuSurfacePresentMode::Fifo => PresentMode::Fifo,
            GpuSurfacePresentMode::FifoRelaxed => PresentMode::FifoRelaxed,
            GpuSurfacePresentMode::Immediate => PresentMode::Immediate,
            GpuSurfacePresentMode::Mailbox => PresentMode::Mailbox,
        }
    }
}

impl From<PresentMode> for GpuSurfacePresentMode {
    fn from(value: PresentMode) -> (r: GpuSurfacePresentMode) {
        match value {
            PresentMode::AutoVsync => GpuSurfacePresentMode::AutoVsync,
            PresentMode::AutoNoVsync => GpuSurfacePresentMode::AutoNoVsync,
            PresentMode::Fifo => GpuSurfacePresentMode::Fifo,
            PresentMode::FifoRelaxed => GpuSurfacePresentMode::FifoRelaxed,
            PresentMode::Immediate => GpuSurfacePresentMode::Immediate,
            PresentMode::Mailbox => GpuSurfacePresentMode::Mailbox,
        }
    }
}

impl vstd::std_specs::convert::FromSpecImpl<PresentMode> for GpuSurfacePresentMode {
    open spec fn obeys_from_spec() -> bool {
        true
    }

    open spec fn from_spec(value: PresentMode) -> GpuSurfacePresentMode {
        match value {
            PresentMode::AutoVsync => GpuSurfacePresentMode::AutoVsync,
            PresentMode::AutoNoVsync => GpuSurfacePresentMode::AutoNoVsync,
            PresentMode::Fifo => GpuSurfacePresentMode::Fifo,
            PresentMode::FifoRelaxed => GpuSurfacePresentMode::FifoRelaxed,
            PresentMode::Immediate => GpuSurfacePresentMode::Immediate,
            PresentMode::Mailbox => GpuSurfacePresentMode::Mailbox,
        }
    }
}

/// How a surface is blended with what lies behind it.
#[derive(Clone, Copy, Debug, PartialEq, Eq, Structural)]
pub enum GpuSurfaceAlphaMode {
    Auto,
    Opaque,
    PreMultiplied,
    PostMultiplied,
    Inherit,
}

/// The name under which an alpha mode goes over the wire.
pub open spec fn alpha_mode_name(mode: GpuSurfaceAlphaMode) -> Seq<char> {
    match mode {
        GpuSurfaceAlphaMode::Auto => "auto"@,
        GpuSurfaceAlphaMode::Opaque => "opaque"@,
        GpuSurfaceAlphaMode::PreMultiplied => "pre-multiplied"@,
        GpuSurfaceAlphaMode::PostMultiplied => "post-multiplied"@,
        GpuSurfaceAlphaMode::Inherit => "inherit"@,
    }
}

impl GpuSurfaceAlphaMode {
    /// The name under which the mode goes over the wire.
    pub fn name(&self) -> (r: &'static str)
        ensures
            r@ == alpha_mode_name(*self),
    {
        match self {
            GpuSurfaceAlphaMode::Auto => "auto",
            GpuSurfaceAlphaMode::Opaque => "opaque",
            GpuSurfaceAlphaMode::PreMultiplied => "pre-multiplied",
            GpuSurfaceAlphaMode::PostMultiplied => "post-multiplied",
            GpuSurfaceAlphaMode::Inherit => "inherit",
        }
    }
}

impl From<GpuSurfaceAlphaMode> for CompositeAlphaMode {
    fn from(value: GpuSurfaceAlphaMode) -> (r: CompositeAlphaMode) {
        match value {
            GpuSurfaceAlphaMode::Auto => CompositeAlphaMode::Auto,
            GpuSurfaceAlphaMode::Opaque => CompositeAlphaMode::Opaque,
            GpuSurfaceAlphaMode::PreMultiplied => CompositeAlphaMode::PreMultiplied,
            GpuSurfaceAlphaMode::PostMultiplied => CompositeAlphaMode::PostMultiplied,
            GpuSurfaceAlphaMode::Inherit => CompositeAlphaMode::Inherit,
        }
    }
}

impl vstd::std_specs::convert::FromSpecImpl<GpuSurfaceAlphaMode> for CompositeAlphaMode {
    open spec fn obeys_from_spec() -> bool {
        true
    }

    open spec fn from_spec(value: GpuSurfaceAlphaMode) -> CompositeAlphaMode {
        match value {
            GpuSurfaceAlphaMode::Auto => CompositeAlphaMode::Auto,
            GpuSurfaceAlphaMode::Opaque => CompositeAlphaMode::Opaque,
            GpuSurfaceAlphaMode::PreMultiplied => CompositeAlphaMode::PreMultiplied,
            GpuSurfaceAlphaMode::PostMultiplied => CompositeAlphaMode::PostMultiplied,
            GpuSurfaceAlphaMode::Inherit => CompositeAlphaMode::Inherit,
        }
    }
}

impl From<CompositeAlphaMode> for GpuSurfaceAlphaMode {
    fn from(value: CompositeAlphaMode) -> (r: GpuSurfaceAlphaMode) {
        match value {
            CompositeAlphaMode::Auto => GpuSurfaceAlphaMode::Auto,
            CompositeAlphaMode::Opaque => GpuSurfaceAlphaMode::Opaque,
            CompositeAlphaMode::PreMultiplied => GpuSurfaceAlphaMode::PreMultiplied,
            CompositeAlphaMode::PostMultiplied => GpuSurfaceAlphaMode::PostMultiplied,
            CompositeAlphaMode::Inherit => GpuSurfaceAlphaMode::Inherit,
        }
    }
}

impl vstd::std_specs::convert::FromSpecImpl<CompositeAlphaMode> for GpuSurfaceAlphaMode {
    open spec fn obeys_from_spec() -> bool {
        true
    }

    open spec fn from_spec(value: CompositeAlphaMode) -> GpuSurfaceAlphaMode {
        match value {
            CompositeAlphaMode::Auto => GpuSurfaceAlphaMode::Auto,
            CompositeAlphaMode::Opaque => GpuSurfaceAlphaMode::Opaque,
            CompositeAlphaMode::PreMultiplied => GpuSurfaceAlphaMode::PreMultiplied,
            CompositeAlphaMode::PostMultiplied => GpuSurfaceAlphaMode::PostMultiplied,
            CompositeAlphaMode::Inherit => GpuSurfaceAlphaMode::Inherit,
        }
    }
}

/// A present mode and an alpha mode survive the way to the native type and back, in
/// both directions.
pub proof fn law_mode_round_trip(
    present: GpuSurfacePresentMode,
    native_present: PresentMode,
    alpha: GpuSurfaceAlphaMode,
    native_alpha: CompositeAlphaMode,
)
    ensures
        GpuSurfacePresentMode::from_spec(PresentMode::from_spec(present)) == present,
        PresentMode::from_spec(GpuSurfacePresentMode::from_spec(native_present))
            == native_present,
        GpuSurfaceAlphaMode::from_spec(CompositeAlphaMode::from_spec(alpha)) == alpha,
        CompositeAlphaMode::from_spec(GpuSurfaceAlphaMode::from_spec(native_alpha))
            == native_alpha,
{
}

/// What a surface offers on a given adapter.
pub struct GpuSurfaceCapabilities {
    pub formats: Vec<TextureFormat>,
    pub present_modes: Vec<GpuSurfacePresentMode>,
    pub alpha_modes: Vec<GpuSurfaceAlphaMode>,
}

/// The present modes of a native list, in the same order.
pub fn present_modes_from_native(modes: &Vec<PresentMode>) -> (r: Vec<GpuSurfacePresentMode>)
    ensures
        r@ == modes@.map_values(|mode: PresentMode| GpuSurfacePresentMode::from_spec(mode)),
{
    let mut out: Vec<GpuSurfacePresentMode> = Vec::new();
    let mut i: usize = 0;
    while i < modes.len()
        invariant
            i <= modes.len(),
            out@ == modes@.take(i as int).map_values(
                |mode: PresentMode| GpuSurfacePresentMode::from_spec(mode),
            ),
        decreases modes.len() - i,
    {
        out.push(GpuSurfacePresentMode::from(modes[i]));
        assert(modes@.take(i + 1) == modes@.take(i as int).push(modes@[i as int]));
        i += 1;
    }
    assert(modes@.take(i as int) == modes@);
    out
}

/// The alpha modes of a native list, in the same order.
pub fn alpha_modes_from_native(modes: &Vec<CompositeAlphaMode>) -> (r: Vec<GpuSurfaceAlphaMode>)
    ensures
        r@ == modes@.map_values(|mode: CompositeAlphaMode| GpuSurfaceAlphaMode::from_spec(mode)),
{
    let mut out: Vec<GpuSurfaceAlphaMode> = Vec::new();
    let mut i: usize = 0;
    while i < modes.len()
        invariant
            i <= modes.len(),
            out@ == modes@.take(i as int).map_values(
                |mode: CompositeAlphaMode| GpuSurfaceAlphaMode::from_spec(mode),
            ),
        decreases modes.len() - i,
    {
        out.push(GpuSurfaceAlphaMode::from(modes[i]));
        assert(modes@.take(i + 1) == modes@.take(i as int).push(modes@[i as int]));
        i += 1;
    }
    assert(modes@.take(i as int) == modes@);
    out
}

/// The wire names of a list of present modes, in the same order.
pub fn serialize_present_modes(modes: &Vec<PresentMode>) -> (r: Vec<&'static str>)
    ensures
        r@.len() == modes@.len(),
        forall|i: int|
            0 <= i < modes@.len() ==> (#[trigger] r@[i])@ == present_mode_name(
                GpuSurfacePresentMode::from_spec(modes@[i]),
            ),
{
    let mut out: Vec<&'static str> = Vec::new();
    let mut i: usize = 0;
    while i < modes.len()
        invariant
            i <= modes.len(),
            out@.len() == i,
            forall|j: int|
                0 <= j < i ==> (#[trigger] out@[j])@ == present_mode_name(
                    GpuSurfacePresentMode::from_spec(modes@[j]),
                ),
        decreases modes.len() - i,
    {
        out.push(GpuSurfacePresentMode::from(modes[i]).name());
        i += 1;
    }
    out
}

/// The wire names of a list of alpha modes, in the same order.
pub fn serialize_alpha_modes(modes: &Vec<CompositeAlphaMode>) -> (r: Vec<&'static str>)
    ensures
        r@.len() == modes@.len(),
        forall|i: int|
            0 <= i < modes@.len() ==> (#[trigger] r@[i])@ == alpha_mode_name(
                GpuSurfaceAlphaMode::from_spec(modes@[i]),
            ),
{
    let mut out: Vec<&'static str> = Vec::new();
    let mut i: usize = 0;
    while i < modes.len()
        invariant
            i <= modes.len(),
            out@.len() == i,
            forall|j: int|
                0 <= j < i ==> (#[trigger] out@[j])@ == alpha_mode_name(
                    GpuSurfaceAlphaMode::from_spec(modes@[j]),
                ),
        decreases modes.len() - i,
    {
        out.push(GpuSurfaceAlphaMode::from(modes[i]).name());
        i += 1;
    }
    out
}

impl GpuSurfaceCapabilities {
    /// The capabilities that the native library reported, with the modes in this
    /// crate's own terms. Formats are passed through.
    pub fn from_native(caps: SurfaceCapabilities) -> (r: GpuSurfaceCapabilities)
        ensures
            r.formats == caps.formats,
            r.present_modes@ == caps.present_modes@.map_values(
                |mode: PresentMode| GpuSurfacePresentMode::from_spec(mode),
            ),
            r.alpha_modes@ == caps.alpha_modes@.map_values(
                |mode: CompositeAlphaMode| GpuSurfaceAlphaMode::from_spec(mode),
            ),
    {
        GpuSurfaceCapabilities {
            present_modes: present_modes_from_native(&caps.present_modes),
            alpha_modes: alpha_modes_from_native(&caps.alpha_modes),
            formats: caps.formats,
        }
    }
}

/// How a surface is to present its frames.
pub struct GpuSurfaceConfiguration {
    pub usage: TextureUsages,
    pub format: TextureFormat,
    pub size: Extent3d,
    pub present_mode: GpuSurfacePresentMode,
    pub alpha_mode: GpuSurfaceAlphaMode,
    pub view_formats: Vec<TextureFormat>,
}

impl GpuSurfaceConfiguration {
    /// The configuration in the native library's terms. The depth of the size is
    /// not used: a surface is flat.
    pub fn into_native(self) -> (r: SurfaceConfiguration<Vec<TextureFormat>>)
        ensures
            r.usage == self.usage,
            r.format == self.format,
            r.width == self.size.width,
            r.height == self.size.height,
            r.present_mode == PresentMode::from_spec(self.present_mode),
            r.alpha_mode == CompositeAlphaMode::from_spec(self.alpha_mode),
            r.view_formats == self.view_formats,
    {
        SurfaceConfiguration {
            usage: self.usage,
            format: self.format,
            width: self.size.width,
            height: self.size.height,
            present_mode: PresentMode::from(self.present_mode),
            alpha_mode: CompositeAlphaMode::from(self.alpha_mode),
            view_formats: self.view_formats,
        }
    }
}

/// Why no frame could be had from a surface.
#[derive(Clone, Copy, Debug, PartialEq, Eq, Structural)]
pub enum SurfaceError {
    Timeout,
    Outdated,
    Lost,
}

/// The text that tells a caller why no frame could be had.
pub open spec fn surface_error_message(error: SurfaceError) -> Seq<char> {
    match error {
        SurfaceError::Timeout => "Unable to get the next frame, timed out."@,
        SurfaceError::Outdated => "The surface under the swap chain has changed."@,
        SurfaceError::Lost => "The surface under the swap chain is lost."@,
    }
}

impl SurfaceError {
    /// The text that tells a caller why no frame could be had.
    pub fn message(&self) -> (r: &'static str)
        ensures
            r@ == surface_error_message(*self),
    {
        match self {
            SurfaceError::Timeout => "Unable to get the next frame, timed out.",
            SurfaceError::Outdated => "The surface under the swap chain has changed.",
            SurfaceError::Lost => "The surface under the swap chain is lost.",
        }
    }
}

/// What the status of a frame means for the caller: whether the surface should be
/// configured anew although the frame is usable, or why there is no frame.
pub open spec fn spec_check_suboptimal(status: SurfaceStatus) -> Result<bool, SurfaceError> {
    match status {
        SurfaceStatus::Good => Ok(false),
        SurfaceStatus::Suboptimal => Ok(true),
        SurfaceStatus::Timeout => Err(SurfaceError::Timeout),
        SurfaceStatus::Outdated => Err(SurfaceError::Outdated),
        SurfaceStatus::Lost => Err(SurfaceError::Lost),
    }
}

/// Tells a usable frame from a failure, and a frame that calls for a new
/// configuration from one that does not.
pub fn check_suboptimal(status: SurfaceStatus) -> (r: Result<bool, SurfaceError>)
    ensures
        r == spec_check_suboptimal(status),
{
    match status {
        SurfaceStatus::Good => Ok(false),
        SurfaceStatus::Suboptimal => Ok(true),
        SurfaceStatus::Timeout => Err(SurfaceError::Timeout),
        SurfaceStatus::Outdated => Err(SurfaceError::Outdated),
        SurfaceStatus::Lost => Err(SurfaceError::Lost),
    }
}

} // verus!
