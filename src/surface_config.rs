use vstd::prelude::*;

verus! {

/// Why a session could not be built.
#[derive(Clone, Copy, Debug, PartialEq, Eq, Structural)]
pub enum SetupError {
    /// The surface offers no colour-correct (sRGB) pixel format.
    NoSrgbFormat,
}

/// `r` is the index of the first sRGB format of the flags, or the error when
/// no flag is set.
pub open spec fn is_first_srgb(srgb: Seq<bool>, r: Result<usize, SetupError>) -> bool {
    match r {
        Ok(i) => i < srgb.len() && srgb[i as int] && forall|j: int| 0 <= j < i ==> !#[trigger] srgb[j],
        Err(e) => e == SetupError::NoSrgbFormat && forall|j: int| 0 <= j < srgb.len() ==> !#[trigger] srgb[j],
    }
}

/// Picks the surface's pixel format: the first of the supported formats that
/// is sRGB. `srgb[i]` tells whether the i-th supported format, in the order
/// the surface lists them, is sRGB. Returns its index, or an error when there
/// is none.
pub fn select_surface_format(srgb: &Vec<bool>) -> (r: Result<usize, SetupError>)
    ensures
        is_first_srgb(srgb@, r),
{
    let mut i: usize = 0;
    while i < srgb.len()
        invariant
            i <= srgb@.len(),
            forall|j: int| 0 <= j < i ==> !#[trigger] srgb@[j],
        decreases srgb@.len() - i,
    {
        if srgb[i] {
            return Ok(i);
        }
        i = i + 1;
    }
    Err(SetupError::NoSrgbFormat)
}

#[verifier::external_type_specification]
#[verifier::external_body]
pub struct ExTextureFormat(wgpu::TextureFormat);

/// Whether a texture format is sRGB, as wgpu's table has it.
pub uninterp spec fn srgb_of(f: wgpu::TextureFormat) -> bool;

/// Relies on wgpu's `TextureFormat::is_srgb`: whether the format stores
/// colours gamma-encoded, which depends on the format alone.
#[verifier::external_body]
fn format_is_srgb(format: &wgpu::TextureFormat) -> (r: bool)
    ensures
        r == srgb_of(*format),
{
    format.is_srgb()
}

/// Picks the surface's pixel format from the formats it supports, in the
/// order it lists them: the first sRGB one, as `format_is_srgb` judges them.
/// Returns its index, or the error when no format is sRGB.
pub fn pick_surface_format(formats: &Vec<wgpu::TextureFormat>) -> (r: Result<usize, SetupError>)
    ensures
        is_first_srgb(formats@.map_values(|f: wgpu::TextureFormat| srgb_of(f)), r),
{
    let mut srgb: Vec<bool> = Vec::new();
    let mut i: usize = 0;
    while i < formats.len()
        invariant
            i <= formats@.len(),
            srgb@.len() == i,
            forall|j: int| 0 <= j < i ==> #[trigger] srgb@[j] == srgb_of(formats@[j]),
        decreases formats@.len() - i,
    {
        srgb.push(format_is_srgb(&formats[i]));
        i = i + 1;
    }
    assert(srgb@ =~= formats@.map_values(|f: wgpu::TextureFormat| srgb_of(f)));
    select_surface_format(&srgb)
}

/// Presentation modes the surface can be configured with.
#[derive(Clone, Copy, Debug, PartialEq, Eq, Structural)]
pub enum PresentMode {
    AutoVsync,
    AutoNoVsync,
    Fifo,
    FifoRelaxed,
    Immediate,
    Mailbox,
}

/// The swap-chain configuration: size, present mode and buffering depth.
///
/// The pixel format is fixed when the session is built and is carried by the
/// graphics backend, not here.
#[derive(Clone, Copy, Debug, PartialEq, Eq, Structural)]
pub struct SurfaceConfig {
    pub width: u32,
    pub height: u32,
    pub present_mode: PresentMode,
    pub max_frame_latency: u32,
}

impl SurfaceConfig {
    pub open spec fn wf(&self) -> bool {
        self.max_frame_latency >= 1
    }

    /// The configuration a freshly built surface gets: the window's pixel size,
    /// uncapped presentation for lowest latency, and two frames in flight.
    pub fn initial(width: u32, height: u32) -> (r: SurfaceConfig)
        ensures
            r.width == width,
            r.height == height,
            r.present_mode == PresentMode::Immediate,
            r.max_frame_latency == 2,
            r.wf(),
    {
        SurfaceConfig { width, height, present_mode: PresentMode::Immediate, max_frame_latency: 2 }
    }

    /// Whether the surface can be configured with this size: both sides are
    /// positive.
    pub fn has_area(&self) -> (r: bool)
        ensures
            r == (self.width > 0 && self.height > 0),
    {
        self.width > 0 && self.height > 0
    }

    /// Applies a resize request. A request with a zero dimension (a minimized
    /// window) is ignored; otherwise the size is stored. Returns whether the
    /// surface must be reconfigured.
    pub fn resize(&mut self, width: u32, height: u32) -> (reconfigure: bool)
        ensures
            reconfigure == (width > 0 && height > 0),
            !reconfigure ==> *final(self) == *old(self),
            reconfigure ==> *final(self) == (SurfaceConfig { width, height, ..*old(self) }),
    {
        if width == 0 || height == 0 {
            return false;
        }
        self.width = width;
        self.height = height;
        true
    }
}

} // verus!
