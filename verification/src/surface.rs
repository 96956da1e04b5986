//! The configuration the renderer asks of its surface: the window's size,
//! the first sRGB format the surface offers (else its first format), and
//! the first present and alpha modes it offers.
use vstd::prelude::*;

verus! {

#[verifier::external_type_specification]
#[verifier::external_body]
pub struct ExTextureFormat(wgpu::TextureFormat);

#[verifier::external_type_specification]
#[verifier::external_body]
pub struct ExPresentMode(wgpu::PresentMode);

#[verifier::external_type_specification]
#[verifier::external_body]
pub struct ExCompositeAlphaMode(wgpu::CompositeAlphaMode);

/// A size in physical pixels.
#[derive(Clone, Copy, Debug, PartialEq, Eq, Structural)]
pub struct PhysicalSize {
    pub width: u32,
    pub height: u32,
}

impl PhysicalSize {
    pub fn new(width: u32, height: u32) -> (s: PhysicalSize)
        ensures
            s.width == width,
            s.height == height,
    {
        PhysicalSize { width, height }
    }
}

/// A size a surface can be configured with: neither side is zero.
pub open spec fn is_drawable(size: PhysicalSize) -> bool {
    size.width > 0 && size.height > 0
}

/// What the textures of the surface are used for.
#[derive(Clone, Copy, Debug, PartialEq, Eq, Structural)]
pub enum SurfaceUsage {
    /// The textures are drawn into as colour attachments of a render pass.
    RenderAttachment,
}

/// What the renderer configures its surface with.
pub struct SurfaceConfig {
    pub usage: SurfaceUsage,
    pub width: u32,
    pub height: u32,
    pub format: wgpu::TextureFormat,
    pub present_mode: wgpu::PresentMode,
    pub alpha_mode: wgpu::CompositeAlphaMode,
    /// Further formats that views of the surface textures may take.
    pub view_formats: Vec<wgpu::TextureFormat>,
}

/// What a `SurfaceConfig` holds.
pub struct SurfaceConfigView {
    pub usage: SurfaceUsage,
    pub width: u32,
    pub height: u32,
    pub format: wgpu::TextureFormat,
    pub present_mode: wgpu::PresentMode,
    pub alpha_mode: wgpu::CompositeAlphaMode,
    pub view_formats: Seq<wgpu::TextureFormat>,
}

impl View for SurfaceConfig {
    type V = SurfaceConfigView;

    open spec fn view(&self) -> SurfaceConfigView {
        SurfaceConfigView {
            usage: self.usage,
            width: self.width,
            height: self.height,
            format: self.format,
            present_mode: self.present_mode,
            alpha_mode: self.alpha_mode,
            view_formats: self.view_formats@,
        }
    }
}

/// `i` is the index of the format to use among formats whose sRGB flags
/// are `srgb`: the first sRGB one, or the first one when none is sRGB.
pub open spec fn is_preferred_format_index(srgb: Seq<bool>, i: int) -> bool {
    &&& 0 <= i < srgb.len()
    &&& if exists|j: int| 0 <= j < srgb.len() && #[trigger] srgb[j] {
        srgb[i] && forall|j: int| 0 <= j < i ==> !#[trigger] srgb[j]
    } else {
        i == 0
    }
}

/// Picks the index of the first sRGB format, or `0` when none is sRGB.
pub fn preferred_format_index(srgb: &Vec<bool>) -> (i: usize)
    requires
        srgb.len() > 0,
    ensures
        is_preferred_format_index(srgb@, i as int),
        i < srgb.len(),
        forall|j: int| 0 <= j < i ==> !srgb@[j],
        srgb@[i as int] || (i == 0 && forall|j: int| 0 <= j < srgb.len() ==> !srgb@[j]),
{
    let mut k: usize = 0;
    while k < srgb.len()
        invariant
            k <= srgb.len(),
            forall|j: int| 0 <= j < k ==> !#[trigger] srgb@[j],
        decreases srgb.len() - k,
    {
        if srgb[k] {
            return k;
        }
        k = k + 1;
    }
    0
}

/// Whether wgpu counts `format` as an sRGB format: the answer of
/// `wgpu::TextureFormat::is_srgb`, which depends on the format alone.
pub uninterp spec fn texture_format_is_srgb(format: wgpu::TextureFormat) -> bool;

/// The sRGB flag of each of `formats`, in order.
pub open spec fn srgb_of(formats: Seq<wgpu::TextureFormat>) -> Seq<bool> {
    formats.map_values(|f: wgpu::TextureFormat| texture_format_is_srgb(f))
}

/// Asks wgpu whether `format` is an sRGB format
/// (`wgpu::TextureFormat::is_srgb`, a match on the format). The contract
/// claims only that the answer is `texture_format_is_srgb` of the format.
#[verifier::external_body]
fn format_is_srgb(format: &wgpu::TextureFormat) -> (b: bool)
    ensures
        b == texture_format_is_srgb(*format),
{
    format.is_srgb()
}

/// The sRGB flag of each format, in order.
pub fn srgb_flags(formats: &Vec<wgpu::TextureFormat>) -> (flags: Vec<bool>)
    ensures
        flags@ == srgb_of(formats@),
{
    let mut flags: Vec<bool> = Vec::new();
    let mut k: usize = 0;
    while k < formats.len()
        invariant
            k <= formats.len(),
            flags@ == srgb_of(formats@.take(k as int)),
        decreases formats.len() - k,
    {
        flags.push(format_is_srgb(&formats[k]));
        assert(formats@.take(k + 1) =~= formats@.take(k as int).push(formats@[k as int]));
        k = k + 1;
    }
    assert(formats@.take(k as int) =~= formats@);
    flags
}

/// The surface format to render to: the first sRGB format that the surface
/// offers, or its first format when it offers none.
pub fn choose_surface_format(formats: &Vec<wgpu::TextureFormat>) -> (f: wgpu::TextureFormat)
    requires
        formats.len() > 0,
    ensures
        exists|i: int| is_preferred_format_index(srgb_of(formats@), i) && f == formats@[i],
{
    let flags = srgb_flags(formats);
    let i = preferred_format_index(&flags);
    let f = formats[i];
    assert(is_preferred_format_index(srgb_of(formats@), i as int) && f == formats@[i as int]);
    f
}

/// The surface configuration for a window of `size`: textures used as
/// render attachments, the window's size, the chosen format, the first
/// present and alpha modes offered, and no further view formats.
pub fn surface_config(
    size: PhysicalSize,
    formats: &Vec<wgpu::TextureFormat>,
    present_modes: &Vec<wgpu::PresentMode>,
    alpha_modes: &Vec<wgpu::CompositeAlphaMode>,
) -> (c: SurfaceConfig)
    requires
        formats.len() > 0,
        present_modes.len() > 0,
        alpha_modes.len() > 0,
    ensures
        c.usage == SurfaceUsage::RenderAttachment,
        c.width == size.width,
        c.height == size.height,
        exists|i: int| is_preferred_format_index(srgb_of(formats@), i) && c.format == formats@[i],
        c.present_mode == present_modes@[0],
        c.alpha_mode == alpha_modes@[0],
        c.view_formats@ == Seq::<wgpu::TextureFormat>::empty(),
{
    SurfaceConfig {
        usage: SurfaceUsage::RenderAttachment,
        width: size.width,
        height: size.height,
        format: choose_surface_format(formats),
        present_mode: present_modes[0],
        alpha_mode: alpha_modes[0],
        view_formats: Vec::new(),
    }
}

/// Law: the preferred format index is determined by the flags alone.
pub proof fn lemma_preferred_format_unique(srgb: Seq<bool>, i: int, j: int)
    requires
        is_preferred_format_index(srgb, i),
        is_preferred_format_index(srgb, j),
    ensures
        i == j,
{
    if exists|k: int| 0 <= k < srgb.len() && #[trigger] srgb[k] {
        if i < j {
            assert(!srgb[i]);
        } else if j < i {
            assert(!srgb[j]);
        }
    }
}

/// Law: the preferred format is the first sRGB one: an index whose flag is
/// set with no set flag before it is the preferred index; when no flag is
/// set the first format is preferred; and a preferred index with a set
/// flag before it, or an unset flag while some flag is set, is impossible.
pub proof fn lemma_preferred_format_is_first_srgb(srgb: Seq<bool>, i: int, k: int)
    ensures
        0 <= k < srgb.len() && srgb[k] && (forall|j: int| 0 <= j < k ==> !srgb[j])
            ==> is_preferred_format_index(srgb, k),
        srgb.len() > 0 && (forall|j: int| 0 <= j < srgb.len() ==> !srgb[j])
            ==> is_preferred_format_index(srgb, 0),
        is_preferred_format_index(srgb, i) && 0 <= k < i ==> !srgb[k],
        is_preferred_format_index(srgb, i) && 0 <= k < srgb.len() && srgb[k] ==> srgb[i] && i <= k,
{
    if is_preferred_format_index(srgb, i) && 0 <= k < srgb.len() && srgb[k] {
        assert(exists|j: int| 0 <= j < srgb.len() && #[trigger] srgb[j]);
    }
    if is_preferred_format_index(srgb, i) && 0 <= k < i && srgb[k] {
        assert(exists|j: int| 0 <= j < srgb.len() && #[trigger] srgb[j]);
    }
    if 0 <= k < srgb.len() && srgb[k] && (forall|j: int| 0 <= j < k ==> !srgb[j]) {
        assert(exists|j: int| 0 <= j < srgb.len() && #[trigger] srgb[j]);
    }
}

} // verus!
