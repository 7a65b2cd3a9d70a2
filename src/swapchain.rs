//! Negotiation of swap-chain parameters from the capabilities a surface reports.
use vstd::prelude::*;

verus! {

/// Synchronisation policy between image submission and display refresh.
#[derive(Clone, Copy, Debug, PartialEq, Eq, Structural)]
pub enum PresentMode {
    /// Shown at once; tearing may be visible.
    Immediate,
    /// Low-latency and tear-free: a newer image replaces the one waiting.
    Mailbox,
    /// Queued and shown at each vertical blank; always supported.
    Fifo,
    /// Like `Fifo`, but an image that comes late is shown at once.
    Relaxed,
}

/// The present modes a surface supports, one flag per mode.
#[derive(Clone, Copy, Debug, PartialEq, Eq, Structural)]
pub struct SupportedPresentModes {
    pub immediate: bool,
    pub mailbox: bool,
    pub fifo: bool,
    pub relaxed: bool,
}

impl SupportedPresentModes {
    pub open spec fn has(self, mode: PresentMode) -> bool {
        match mode {
            PresentMode::Immediate => self.immediate,
            PresentMode::Mailbox => self.mailbox,
            PresentMode::Fifo => self.fifo,
            PresentMode::Relaxed => self.relaxed,
        }
    }

    pub open spec fn is_empty_spec(self) -> bool {
        !self.immediate && !self.mailbox && !self.fifo && !self.relaxed
    }

    /// The set with no mode in it.
    pub fn none() -> (r: SupportedPresentModes)
        ensures
            forall|m: PresentMode| !r.has(m),
    {
        SupportedPresentModes { immediate: false, mailbox: false, fifo: false, relaxed: false }
    }

    /// Whether `mode` is in the set.
    pub fn supports(&self, mode: PresentMode) -> (r: bool)
        ensures
            r == self.has(mode),
    {
        match mode {
            PresentMode::Immediate => self.immediate,
            PresentMode::Mailbox => self.mailbox,
            PresentMode::Fifo => self.fifo,
            PresentMode::Relaxed => self.relaxed,
        }
    }

    /// Whether the set holds no mode at all.
    pub fn is_empty(&self) -> (r: bool)
        ensures
            r == self.is_empty_spec(),
            r == (forall|m: PresentMode| !self.has(m)),
    {
        proof {
            if !self.is_empty_spec() {
                if self.immediate {
                    assert(self.has(PresentMode::Immediate));
                } else if self.mailbox {
                    assert(self.has(PresentMode::Mailbox));
                } else if self.fifo {
                    assert(self.has(PresentMode::Fifo));
                } else {
                    assert(self.has(PresentMode::Relaxed));
                }
            }
        }
        !self.immediate && !self.mailbox && !self.fifo && !self.relaxed
    }
}

/// A pixel format and the colour space it is shown in, as the raw numbers of the graphics API.
#[derive(Clone, Copy, Debug, PartialEq, Eq, Structural)]
pub struct SurfaceFormat {
    pub format: u32,
    pub color_space: u32,
}

/// A width and a height in pixels.
#[derive(Clone, Copy, Debug, PartialEq, Eq, Structural)]
pub struct Extent {
    pub width: u32,
    pub height: u32,
}

/// What a surface reports about the swap chains that a device can create for it.
#[derive(Clone, Debug)]
pub struct SurfaceCapabilities {
    pub min_image_count: u32,
    /// `None` or `Some(0)`: no upper bound.
    pub max_image_count: Option<u32>,
    /// `None` when the surface lets the swap chain decide its size.
    pub current_extent: Option<Extent>,
    pub min_image_extent: Extent,
    pub max_image_extent: Extent,
    /// In the order the driver enumerates them.
    pub supported_formats: Vec<SurfaceFormat>,
    pub present_modes: SupportedPresentModes,
}

/// The parameters to request a swap chain with.
#[derive(Clone, Copy, Debug, PartialEq, Eq, Structural)]
pub struct SwapChainParameters {
    pub image_count: u32,
    pub format: SurfaceFormat,
    pub extent: Extent,
    pub present_mode: PresentMode,
}

/// One more image than the minimum, at most the maximum when a nonzero one is reported; a
/// request that would not fit in a `u32` stays at `u32::MAX`.
pub open spec fn image_count_spec(min_image_count: u32, max_image_count: Option<u32>) -> int {
    let wanted: int = if min_image_count < u32::MAX { min_image_count + 1 } else { u32::MAX as int };
    match max_image_count {
        Some(m) => if m != 0 && wanted > m { m as int } else { wanted },
        None => wanted,
    }
}

/// The preferred pair when the surface supports it or supports nothing; else the first pair.
pub open spec fn surface_format_spec(available: Seq<SurfaceFormat>, preferred: SurfaceFormat) -> SurfaceFormat {
    if available.len() == 0 || available.contains(preferred) {
        preferred
    } else {
        available[0]
    }
}

/// Mailbox before immediate before the always-available FIFO mode.
pub open spec fn present_mode_spec(modes: SupportedPresentModes) -> PresentMode {
    if modes.mailbox {
        PresentMode::Mailbox
    } else if modes.immediate {
        PresentMode::Immediate
    } else {
        PresentMode::Fifo
    }
}

/// `value` raised to `lo` and lowered to `hi`; the lower bound wins when `lo > hi`.
pub open spec fn clamp_spec(value: u32, lo: u32, hi: u32) -> u32 {
    let below: u32 = if hi < value { hi } else { value };
    if lo > below { lo } else { below }
}

/// The current extent when the surface reports one; else `desired`, clamped per axis.
pub open spec fn extent_spec(
    current: Option<Extent>,
    min: Extent,
    max: Extent,
    desired: Extent,
) -> Extent {
    match current {
        Some(e) => e,
        None => Extent {
            width: clamp_spec(desired.width, min.width, max.width),
            height: clamp_spec(desired.height, min.height, max.height),
        },
    }
}

/// The parameters that negotiation yields for `caps`.
pub open spec fn parameters_spec(
    caps: SurfaceCapabilities,
    preferred_format: SurfaceFormat,
    desired_extent: Extent,
) -> SwapChainParameters {
    SwapChainParameters {
        image_count: image_count_spec(caps.min_image_count, caps.max_image_count) as u32,
        format: surface_format_spec(caps.supported_formats@, preferred_format),
        extent: extent_spec(
            caps.current_extent,
            caps.min_image_extent,
            caps.max_image_extent,
            desired_extent,
        ),
        present_mode: present_mode_spec(caps.present_modes),
    }
}

/// Number of images to request for the swap chain.
pub fn choose_image_count(min_image_count: u32, max_image_count: Option<u32>) -> (r: u32)
    ensures
        r == image_count_spec(min_image_count, max_image_count),
{
    let wanted: u32 = if min_image_count < u32::MAX { min_image_count + 1 } else { u32::MAX };
    match max_image_count {
        Some(m) => if m != 0 && wanted > m { m } else { wanted },
        None => wanted,
    }
}

/// The (format, colour space) pair to create the swap chain with: `preferred` when the surface
/// supports it, else the first pair that the surface lists. A surface that lists none gets
/// `preferred`.
pub fn choose_swap_surface_format(available: &Vec<SurfaceFormat>, preferred: SurfaceFormat) -> (r:
    SurfaceFormat)
    ensures
        r == surface_format_spec(available@, preferred),
        available@.len() > 0 ==> available@.contains(r),
{
    if available.len() == 0 {
        return preferred;
    }
    let mut i: usize = 0;
    while i < available.len()
        invariant
            0 <= i <= available.len(),
            forall|j: int| 0 <= j < i ==> available@[j] != preferred,
        decreases available.len() - i,
    {
        if available[i] == preferred {
            assert(available@.contains(preferred)) by {
                assert(available@[i as int] == preferred);
            }
            return preferred;
        }
        i = i + 1;
    }
    assert(!available@.contains(preferred));
    assert(available@.contains(available@[0]));
    available[0]
}

/// The present mode to create the swap chain with, by fixed priority: mailbox, then immediate,
/// then FIFO.
pub fn choose_swap_present_mode(modes: SupportedPresentModes) -> (r: PresentMode)
    ensures
        r == present_mode_spec(modes),
        modes.fifo ==> modes.has(r),
{
    if modes.mailbox {
        PresentMode::Mailbox
    } else if modes.immediate {
        PresentMode::Immediate
    } else {
        PresentMode::Fifo
    }
}

fn clamp_axis(value: u32, lo: u32, hi: u32) -> (r: u32)
    ensures
        r == clamp_spec(value, lo, hi),
        lo <= hi ==> lo <= r <= hi,
        lo <= value <= hi ==> r == value,
{
    lo.max(hi.min(value))
}

/// The size of the swap chain's images: the surface's current extent when it reports one,
/// else `desired` clamped into the surface's bounds, each axis on its own.
pub fn choose_swap_extent(caps: &SurfaceCapabilities, desired: Extent) -> (r: Extent)
    ensures
        r == extent_spec(caps.current_extent, caps.min_image_extent, caps.max_image_extent, desired),
{
    match caps.current_extent {
        Some(e) => e,
        None => Extent {
            width: clamp_axis(desired.width, caps.min_image_extent.width, caps.max_image_extent.width),
            height: clamp_axis(
                desired.height,
                caps.min_image_extent.height,
                caps.max_image_extent.height,
            ),
        },
    }
}

/// Derives every parameter of the swap chain from the surface's capabilities, the preferred
/// surface format and the extent the application would like.
pub fn negotiate(caps: &SurfaceCapabilities, preferred_format: SurfaceFormat, desired_extent: Extent) -> (r:
    SwapChainParameters)
    ensures
        r == parameters_spec(*caps, preferred_format, desired_extent),
        caps.present_modes.fifo ==> caps.present_modes.has(r.present_mode),
{
    let image_count = choose_image_count(caps.min_image_count, caps.max_image_count);
    let format = choose_swap_surface_format(&caps.supported_formats, preferred_format);
    let extent = choose_swap_extent(caps, desired_extent);
    let present_mode = choose_swap_present_mode(caps.present_modes);
    SwapChainParameters { image_count, format, extent, present_mode }
}

/// Whenever the surface supports the FIFO mode, the negotiated present mode is one that the
/// surface supports.
pub proof fn lemma_present_mode_supported(
    caps: SurfaceCapabilities,
    preferred_format: SurfaceFormat,
    desired_extent: Extent,
)
    requires
        caps.present_modes.fifo,
    ensures
        caps.present_modes.has(parameters_spec(caps, preferred_format, desired_extent).present_mode),
{
}

} // verus!
