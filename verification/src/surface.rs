//! What a window surface offers, and the configuration chosen from it.

use crate::extent::Extent;
use vstd::prelude::*;

verus! {

/// The texture formats that a window surface can report, together with the
/// format of the offscreen frame buffer.
#[derive(Clone, Copy, Debug, PartialEq, Eq, Structural)]
pub enum TextureFormat {
    Bgra8Unorm,
    Bgra8UnormSrgb,
    Rgba8Snorm,
    Rgba8Unorm,
    Rgba8UnormSrgb,
    Rgba16Float,
    Rgba16Snorm,
    Rgba16Unorm,
    Rgb10a2Unorm,
}

/// How finished frames reach the display.
#[derive(Clone, Copy, Debug, PartialEq, Eq, Structural)]
pub enum PresentMode {
    AutoVsync,
    AutoNoVsync,
    Fifo,
    FifoRelaxed,
    Immediate,
    Mailbox,
}

impl PresentMode {
    /// The modes that pace frames by the display's refresh (tear-free); the
    /// others favour low latency.
    pub open spec fn paces_to_refresh(self) -> bool {
        self is AutoVsync || self is Fifo || self is FifoRelaxed
    }

    /// Whether the mode is the kind that a window with the given vsync
    /// preference asks for.
    pub open spec fn suits(self, vsync: bool) -> bool {
        self.paces_to_refresh() == vsync
    }

    /// Whether the mode paces frames by the display's refresh.
    pub fn is_vsync(&self) -> (yes: bool)
        ensures
            yes == self.paces_to_refresh(),
    {
        match self {
            PresentMode::AutoVsync => true,
            PresentMode::Fifo => true,
            PresentMode::FifoRelaxed => true,
            PresentMode::AutoNoVsync => false,
            PresentMode::Immediate => false,
            PresentMode::Mailbox => false,
        }
    }
}

/// What the surface of a window supports on the adapter chosen for it, in
/// the surface's order of preference.
#[derive(Debug, PartialEq, Eq)]
pub struct SurfaceCapabilities {
    pub formats: Vec<TextureFormat>,
    pub present_modes: Vec<PresentMode>,
}

/// The configuration of a window surface. The surface is always used as a
/// render attachment.
#[derive(Clone, Copy, Debug, PartialEq, Eq, Structural)]
pub struct SurfaceConfiguration {
    pub format: TextureFormat,
    pub width: u32,
    pub height: u32,
    pub present_mode: PresentMode,
}

impl SurfaceConfiguration {
    /// The configured size.
    pub open spec fn extent(self) -> Extent {
        Extent { width: self.width, height: self.height }
    }

    /// The same configuration at another size.
    pub open spec fn resized(self, extent: Extent) -> SurfaceConfiguration {
        SurfaceConfiguration { width: extent.width, height: extent.height, ..self }
    }

    /// The configured size.
    pub fn size(&self) -> (extent: Extent)
        ensures
            extent == self.extent(),
    {
        Extent { width: self.width, height: self.height }
    }
}

/// The format chosen for a surface: the one it lists first.
pub open spec fn preferred_format(supported: Seq<TextureFormat>) -> Option<TextureFormat> {
    if supported.len() == 0 {
        None
    } else {
        Some(supported[0])
    }
}

/// Position of the chosen present mode in the supported list: the first mode
/// that suits the vsync preference, or the first mode at all where none suits.
pub open spec fn is_preferred_mode_index(
    supported: Seq<PresentMode>,
    vsync: bool,
    index: int,
) -> bool {
    &&& 0 <= index < supported.len()
    &&& forall|j: int| 0 <= j < index ==> !(#[trigger] supported[j]).suits(vsync)
    &&& supported[index].suits(vsync) || (index == 0 && forall|j: int|
        0 <= j < supported.len() ==> !(#[trigger] supported[j]).suits(vsync))
}

/// Picks the texture format for a surface from the formats it supports.
pub fn select_format(supported: &Vec<TextureFormat>) -> (chosen: Option<TextureFormat>)
    ensures
        chosen == preferred_format(supported@),
        chosen is None <==> supported@.len() == 0,
{
    if supported.len() == 0 {
        None
    } else {
        Some(supported[0])
    }
}

/// The position that `is_preferred_mode_index` singles out.
pub open spec fn preferred_mode_index(supported: Seq<PresentMode>, vsync: bool) -> int {
    choose|index: int| is_preferred_mode_index(supported, vsync, index)
}

/// The present mode chosen for a surface, and `None` where it supports no
/// mode at all.
pub open spec fn preferred_present_mode(supported: Seq<PresentMode>, vsync: bool) -> Option<
    PresentMode,
> {
    if supported.len() == 0 {
        None
    } else {
        Some(supported[preferred_mode_index(supported, vsync)])
    }
}

/// Picks the present mode for a surface from the modes it supports, biased
/// by the window's vsync preference: the first supported mode of the wanted
/// kind, and the surface's first mode where it has none of that kind.
pub fn select_present_mode(supported: &Vec<PresentMode>, vsync: bool) -> (chosen: Option<
    PresentMode,
>)
    ensures
        chosen == preferred_present_mode(supported@, vsync),
        chosen is None <==> supported@.len() == 0,
        chosen matches Some(mode) ==> {
            &&& is_preferred_mode_index(supported@, vsync, preferred_mode_index(supported@, vsync))
            &&& supported@[preferred_mode_index(supported@, vsync)] == mode
        },
{
    let mut i: usize = 0;
    while i < supported.len()
        invariant
            i <= supported.len(),
            forall|j: int| 0 <= j < i ==> !(#[trigger] supported@[j]).suits(vsync),
        decreases supported.len() - i,
    {
        if supported[i].is_vsync() == vsync {
            proof {
                assert(is_preferred_mode_index(supported@, vsync, i as int));
                lemma_preferred_mode_is_unique(
                    supported@,
                    vsync,
                    i as int,
                    preferred_mode_index(supported@, vsync),
                );
            }
            return Some(supported[i]);
        }
        i += 1;
    }
    if supported.len() == 0 {
        None
    } else {
        proof {
            assert(is_preferred_mode_index(supported@, vsync, 0));
            lemma_preferred_mode_is_unique(
                supported@,
                vsync,
                0,
                preferred_mode_index(supported@, vsync),
            );
        }
        Some(supported[0])
    }
}

/// The supported list fixes the choice: at most one position qualifies.
pub proof fn lemma_preferred_mode_is_unique(
    supported: Seq<PresentMode>,
    vsync: bool,
    first: int,
    second: int,
)
    requires
        is_preferred_mode_index(supported, vsync, first),
        is_preferred_mode_index(supported, vsync, second),
    ensures
        first == second,
{
    if first < second {
        assert(!supported[first].suits(vsync));
    } else if second < first {
        assert(!supported[second].suits(vsync));
    }
}

} // verus!
